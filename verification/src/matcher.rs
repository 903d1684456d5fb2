//! The multi-block matcher: scans a chunk for recipe matches and rewrites
//! matched volumes.
//!
//! For every recipe and every anchor position in the chunk, the matcher tests
//! whether each rule atom accepts the block at `anchor + offset`; a recipe's
//! bounding box may poke past the chunk edge, where reads yield the sentinel
//! blocks. On a match it computes the recipe's outputs from the chunk as it
//! stands, clears the cells named by the clear policy to air, then writes the
//! outputs. The scan mutates the chunk as it goes, so later anchors see the
//! effects of earlier matches; everything is a function of the inputs, stated
//! by `scan_spec`.
//!
//! The matcher returns which cells it cleared and which blocks it placed, in
//! order, so a host can despawn and spawn the presentation entities keyed to
//! those positions.

use vstd::prelude::*;

use crate::blocks::BlockType;
use crate::catalog::{desc_of, Blocks};
use crate::chunk::{chunk_read, spec_set, vox_add, VoxelChunk, VoxelId, BLOCKS_IN_CHUNK,
    CHUNK_SIZE};
use crate::recipes::{rule_applies_spec, rule_offset, ClearType, MultiBlockRecipe, MultiBlocks,
    MultiOutput};

verus! {

/// Do the first `n` rule atoms of `recipe` accept the chunk contents around
/// `anchor`?
pub open spec fn matches_prefix_spec(
    cells: Seq<BlockType>,
    cat: Blocks,
    recipe: MultiBlockRecipe,
    anchor: VoxelId,
    n: int,
) -> bool {
    forall|j: int|
        0 <= j < n ==> {
            let cell = chunk_read(cells, vox_add(anchor, rule_offset(recipe.size, j)));
            rule_applies_spec(#[trigger] recipe.rules@[j], cell, desc_of(cat, cell))
        }
}

/// Does `recipe` match the chunk contents anchored at `anchor`?
pub open spec fn matches_at_spec(
    cells: Seq<BlockType>,
    cat: Blocks,
    recipe: MultiBlockRecipe,
    anchor: VoxelId,
) -> bool {
    matches_prefix_spec(cells, cat, recipe, anchor, recipe.rules@.len() as int)
}

/// Test one recipe at one anchor, giving up at the first failing rule atom.
pub fn matches_at(
    chunk: &VoxelChunk,
    cat: &Blocks,
    recipe: &MultiBlockRecipe,
    anchor: VoxelId,
) -> (r: bool)
    requires
        recipe.wf(),
        cat.complete(),
        anchor.in_chunk_spec(),
    ensures
        r == matches_at_spec(chunk@, *cat, *recipe, anchor),
{
    let sx = recipe.size.x as usize;
    let sz = recipe.size.z as usize;
    proof {
        assert(1 <= sx * sz <= 256 && recipe.rules@.len() <= 4096) by (nonlinear_arith)
            requires
                1 <= sx <= 16,
                1 <= sz <= 16,
                recipe.wf(),
                sx == recipe.size.x,
                sz == recipe.size.z,
        ;
    }
    let n = recipe.rules.len();
    let mut j: usize = 0;
    while j < n
        invariant
            recipe.wf(),
            cat.complete(),
            anchor.in_chunk_spec(),
            n == recipe.rules@.len(),
            n <= 4096,
            sx == recipe.size.x,
            sz == recipe.size.z,
            1 <= sx * sz <= 256,
            j <= n,
            matches_prefix_spec(chunk@, *cat, *recipe, anchor, j as int),
        decreases n - j,
    {
        let rx = (j % sx) as i32;
        let rz = ((j / sx) % sz) as i32;
        let ry = (j / (sx * sz)) as i32;
        let off = VoxelId::new(rx, ry, rz);
        proof {
            assert(off == rule_offset(recipe.size, j as int));
        }
        let pos = anchor.offset(off);
        let block = chunk.get(pos);
        let desc = match cat.resolve(block) {
            Ok(d) => d,
            Err(_) => {
                proof {
                    assert(false);
                }
                return false;
            },
        };
        if !recipe.rules[j].applies_to(block, desc) {
            return false;
        }
        j = j + 1;
    }
    true
}

/// What a match at `anchor` produces: a specific output block at its offset,
/// or, melting in place, the melt target of the block at the melt offset —
/// nothing if that block has no melt target.
pub open spec fn outputs_spec(
    cells: Seq<BlockType>,
    cat: Blocks,
    recipe: MultiBlockRecipe,
    anchor: VoxelId,
) -> Seq<(VoxelId, BlockType)> {
    match recipe.output_block {
        MultiOutput::Specific(b) => seq![(vox_add(anchor, recipe.output_offset), b)],
        MultiOutput::Melt(off) => {
            let src = chunk_read(cells, vox_add(anchor, off));
            match desc_of(cat, src).melts_into {
                Some(m) => seq![(vox_add(anchor, off), m)],
                None => Seq::empty(),
            }
        },
    }
}

/// Compute a matched recipe's outputs from the chunk as it stands (before
/// clearing).
pub fn outputs(
    chunk: &VoxelChunk,
    cat: &Blocks,
    recipe: &MultiBlockRecipe,
    anchor: VoxelId,
) -> (out: Vec<(VoxelId, BlockType)>)
    requires
        recipe.wf(),
        cat.complete(),
        anchor.in_chunk_spec(),
    ensures
        out@ == outputs_spec(chunk@, *cat, *recipe, anchor),
{
    let mut out: Vec<(VoxelId, BlockType)> = Vec::new();
    match &recipe.output_block {
        MultiOutput::Specific(b) => {
            out.push((anchor.offset(recipe.output_offset), *b));
        },
        MultiOutput::Melt(off) => {
            let pos = anchor.offset(*off);
            let src = chunk.get(pos);
            let desc = match cat.resolve(src) {
                Ok(d) => d,
                Err(_) => {
                    proof {
                        assert(false);
                    }
                    return out;
                },
            };
            if let Some(m) = desc.melt() {
                out.push((pos, m));
            }
        },
    }
    proof {
        assert(out@ =~= outputs_spec(chunk@, *cat, *recipe, anchor));
    }
    out
}

/// The cells one clear-policy entry names, in rule order for a whole-volume
/// clear.
pub open spec fn clear_entry_spec(
    recipe: MultiBlockRecipe,
    anchor: VoxelId,
    entry: ClearType,
) -> Seq<VoxelId> {
    match entry {
        ClearType::All => Seq::new(
            (recipe.size.x * recipe.size.y * recipe.size.z) as nat,
            |j: int| vox_add(anchor, rule_offset(recipe.size, j)),
        ),
        ClearType::Offset(off) => seq![vox_add(anchor, off)],
    }
}

/// The cells the first `k` clear-policy entries name, in order.
pub open spec fn clear_prefix_spec(recipe: MultiBlockRecipe, anchor: VoxelId, k: int) -> Seq<
    VoxelId,
>
    decreases k,
{
    if k <= 0 {
        Seq::empty()
    } else {
        clear_prefix_spec(recipe, anchor, k - 1) + clear_entry_spec(
            recipe,
            anchor,
            recipe.output_clear@[k - 1],
        )
    }
}

/// Every cell the recipe's clear policy names, in order.
pub open spec fn clear_positions_spec(recipe: MultiBlockRecipe, anchor: VoxelId) -> Seq<VoxelId> {
    clear_prefix_spec(recipe, anchor, recipe.output_clear@.len() as int)
}

/// List the cells the clear policy names at `anchor`, in order.
pub fn clear_positions(recipe: &MultiBlockRecipe, anchor: VoxelId) -> (out: Vec<VoxelId>)
    requires
        recipe.wf(),
        anchor.in_chunk_spec(),
    ensures
        out@ == clear_positions_spec(*recipe, anchor),
{
    let sx = recipe.size.x as usize;
    let sz = recipe.size.z as usize;
    let sy = recipe.size.y as usize;
    proof {
        assert(1 <= sx * sz <= 256 && 1 <= sx * sy <= 256 && 1 <= sx * sy * sz <= 4096) by (nonlinear_arith)
            requires
                1 <= sx <= 16,
                1 <= sy <= 16,
                1 <= sz <= 16,
        ;
    }
    let volume: usize = sx * sy * sz;
    let mut out: Vec<VoxelId> = Vec::new();
    let n = recipe.output_clear.len();
    let mut k: usize = 0;
    while k < n
        invariant
            recipe.wf(),
            anchor.in_chunk_spec(),
            n == recipe.output_clear@.len(),
            sx == recipe.size.x,
            sy == recipe.size.y,
            sz == recipe.size.z,
            1 <= sx * sz <= 256,
            volume == sx * sy * sz,
            volume == recipe.size.x * recipe.size.y * recipe.size.z,
            volume <= 4096,
            k <= n,
            out@ == clear_prefix_spec(*recipe, anchor, k as int),
        decreases n - k,
    {
        match &recipe.output_clear[k] {
            ClearType::All => {
                let mut j: usize = 0;
                while j < volume
                    invariant
                        recipe.wf(),
                        anchor.in_chunk_spec(),
                        sx == recipe.size.x,
                        sz == recipe.size.z,
                        1 <= sx * sz <= 256,
                        volume == recipe.size.x * recipe.size.y * recipe.size.z,
                        volume <= 4096,
                        j <= volume,
                        out@ == clear_prefix_spec(*recipe, anchor, k as int) + Seq::new(
                            j as nat,
                            |i: int| vox_add(anchor, rule_offset(recipe.size, i)),
                        ),
                    decreases volume - j,
                {
                    let rx = (j % sx) as i32;
                    let rz = ((j / sx) % sz) as i32;
                    let ry = (j / (sx * sz)) as i32;
                    let off = VoxelId::new(rx, ry, rz);
                    proof {
                        assert(off == rule_offset(recipe.size, j as int));
                    }
                    out.push(anchor.offset(off));
                    proof {
                        assert(out@ =~= clear_prefix_spec(*recipe, anchor, k as int) + Seq::new(
                            (j + 1) as nat,
                            |i: int| vox_add(anchor, rule_offset(recipe.size, i)),
                        ));
                    }
                    j = j + 1;
                }
                proof {
                    assert(out@ =~= clear_prefix_spec(*recipe, anchor, k as int + 1));
                }
            },
            ClearType::Offset(off) => {
                out.push(anchor.offset(*off));
                proof {
                    assert(out@ =~= clear_prefix_spec(*recipe, anchor, k as int + 1));
                }
            },
        }
        k = k + 1;
    }
    out
}

/// `cells` after the first `n` of `positions` are cleared to air.
pub open spec fn clear_cells_prefix(
    cells: Seq<BlockType>,
    positions: Seq<VoxelId>,
    n: int,
) -> Seq<BlockType>
    decreases n,
{
    if n <= 0 {
        cells
    } else {
        spec_set(clear_cells_prefix(cells, positions, n - 1), positions[n - 1], BlockType::Air)
    }
}

/// `cells` after the first `n` of `placements` are written.
pub open spec fn place_cells_prefix(
    cells: Seq<BlockType>,
    placements: Seq<(VoxelId, BlockType)>,
    n: int,
) -> Seq<BlockType>
    decreases n,
{
    if n <= 0 {
        cells
    } else {
        spec_set(
            place_cells_prefix(cells, placements, n - 1),
            placements[n - 1].0,
            placements[n - 1].1,
        )
    }
}

/// The chunk after a match of `recipe` at `anchor` is applied: outputs are
/// computed from the pre-clear cells, the clear policy runs, the outputs are
/// written. The second and third components are the cleared cells and the
/// placements.
pub open spec fn apply_spec(
    cells: Seq<BlockType>,
    cat: Blocks,
    recipe: MultiBlockRecipe,
    anchor: VoxelId,
) -> (Seq<BlockType>, Seq<VoxelId>, Seq<(VoxelId, BlockType)>) {
    let outs = outputs_spec(cells, cat, recipe, anchor);
    let cleared = clear_positions_spec(recipe, anchor);
    let cells1 = clear_cells_prefix(cells, cleared, cleared.len() as int);
    let cells2 = place_cells_prefix(cells1, outs, outs.len() as int);
    (cells2, cleared, outs)
}

/// Apply one match: clear, then write the outputs; each application is atomic
/// from the host's point of view. Returns the cleared cells (whose
/// presentation entities the host despawns) and the placements (which it
/// spawns).
pub fn apply_at(
    chunk: &mut VoxelChunk,
    cat: &Blocks,
    recipe: &MultiBlockRecipe,
    anchor: VoxelId,
) -> (out: (Vec<VoxelId>, Vec<(VoxelId, BlockType)>))
    requires
        recipe.wf(),
        cat.complete(),
        anchor.in_chunk_spec(),
    ensures
        (final(chunk)@, out.0@, out.1@) == apply_spec(old(chunk)@, *cat, *recipe, anchor),
{
    let outs = outputs(chunk, cat, recipe, anchor);
    let cleared = clear_positions(recipe, anchor);
    let n_cleared = cleared.len();
    let mut i: usize = 0;
    while i < n_cleared
        invariant
            n_cleared == cleared@.len(),
            i <= n_cleared,
            chunk@ == clear_cells_prefix(old(chunk)@, cleared@, i as int),
        decreases n_cleared - i,
    {
        chunk.set(cleared[i], BlockType::Air);
        i = i + 1;
    }
    let ghost cells1 = chunk@;
    let n_outs = outs.len();
    let mut i: usize = 0;
    while i < n_outs
        invariant
            n_outs == outs@.len(),
            i <= n_outs,
            chunk@ == place_cells_prefix(cells1, outs@, i as int),
        decreases n_outs - i,
    {
        let (pos, block) = outs[i];
        chunk.set(pos, block);
        i = i + 1;
    }
    (cleared, outs)
}

/// A melt-in-place match whose source block has no catalog melt target is
/// silently a no-op for the output, not an error: applying it places nothing,
/// while the clear policy still runs over every cell it names (so a smelt
/// recipe's fuel cell is wasted even when nothing melts).
pub proof fn lemma_melt_without_target(
    cells: Seq<BlockType>,
    cat: Blocks,
    recipe: MultiBlockRecipe,
    anchor: VoxelId,
)
    requires
        recipe.output_block matches MultiOutput::Melt(off) && desc_of(
            cat,
            chunk_read(cells, vox_add(anchor, off)),
        ).melts_into is None,
    ensures
        apply_spec(cells, cat, recipe, anchor).2 =~= Seq::<(VoxelId, BlockType)>::empty(),
        apply_spec(cells, cat, recipe, anchor).1 == clear_positions_spec(recipe, anchor),
        apply_spec(cells, cat, recipe, anchor).0 == clear_cells_prefix(
            cells,
            clear_positions_spec(recipe, anchor),
            clear_positions_spec(recipe, anchor).len() as int,
        ),
{
}

/// The anchor visited at step `a` of a scan: x outermost, then y, then z.
pub open spec fn anchor_of(a: int) -> VoxelId {
    VoxelId {
        x: (a / ((CHUNK_SIZE * CHUNK_SIZE) as int)) as i32,
        y: ((a / (CHUNK_SIZE as int)) % (CHUNK_SIZE as int)) as i32,
        z: (a % (CHUNK_SIZE as int)) as i32,
    }
}

/// The chunk, cleared cells and placements after one recipe was tried at the
/// first `n` anchors, each match applied before the next anchor is tried.
pub open spec fn scan_anchors_spec(
    cells: Seq<BlockType>,
    cat: Blocks,
    recipe: MultiBlockRecipe,
    n: int,
) -> (Seq<BlockType>, Seq<VoxelId>, Seq<(VoxelId, BlockType)>)
    decreases n,
{
    if n <= 0 {
        (cells, Seq::empty(), Seq::empty())
    } else {
        let (c1, cl1, pl1) = scan_anchors_spec(cells, cat, recipe, n - 1);
        let anchor = anchor_of(n - 1);
        if matches_at_spec(c1, cat, recipe, anchor) {
            let (c2, cl2, pl2) = apply_spec(c1, cat, recipe, anchor);
            (c2, cl1 + cl2, pl1 + pl2)
        } else {
            (c1, cl1, pl1)
        }
    }
}

/// The chunk, cleared cells and placements after the first `k` recipes each
/// scanned every anchor.
pub open spec fn scan_recipes_spec(
    cells: Seq<BlockType>,
    cat: Blocks,
    recipes: Seq<MultiBlockRecipe>,
    k: int,
) -> (Seq<BlockType>, Seq<VoxelId>, Seq<(VoxelId, BlockType)>)
    decreases k,
{
    if k <= 0 {
        (cells, Seq::empty(), Seq::empty())
    } else {
        let (c1, cl1, pl1) = scan_recipes_spec(cells, cat, recipes, k - 1);
        let (c2, cl2, pl2) = scan_anchors_spec(c1, cat, recipes[k - 1], BLOCKS_IN_CHUNK as int);
        (c2, cl1 + cl2, pl1 + pl2)
    }
}

/// One whole matcher pass: every recipe, at every anchor.
pub open spec fn scan_spec(
    cells: Seq<BlockType>,
    cat: Blocks,
    recipes: Seq<MultiBlockRecipe>,
) -> (Seq<BlockType>, Seq<VoxelId>, Seq<(VoxelId, BlockType)>) {
    scan_recipes_spec(cells, cat, recipes, recipes.len() as int)
}

/// Run one matcher pass over the chunk: every recipe is tried at every anchor
/// and applied wherever it matches. Returns all cleared cells and all
/// placements, in application order.
pub fn check_for_multi_blocks(
    chunk: &mut VoxelChunk,
    cat: &Blocks,
    recipes: &MultiBlocks,
) -> (out: (Vec<VoxelId>, Vec<(VoxelId, BlockType)>))
    requires
        cat.complete(),
        recipes.wf(),
    ensures
        (final(chunk)@, out.0@, out.1@) == scan_spec(old(chunk)@, *cat, recipes@),
{
    let mut cleared: Vec<VoxelId> = Vec::new();
    let mut placed: Vec<(VoxelId, BlockType)> = Vec::new();
    let nr = recipes.recipes.len();
    let mut k: usize = 0;
    while k < nr
        invariant
            cat.complete(),
            recipes.wf(),
            nr == recipes@.len(),
            k <= nr,
            (chunk@, cleared@, placed@) == scan_recipes_spec(
                old(chunk)@,
                *cat,
                recipes@,
                k as int,
            ),
        decreases nr - k,
    {
        let ghost base = scan_recipes_spec(old(chunk)@, *cat, recipes@, k as int);
        let recipe = &recipes.recipes[k];
        let mut a: usize = 0;
        while a < BLOCKS_IN_CHUNK
            invariant
                cat.complete(),
                recipes.wf(),
                nr == recipes@.len(),
                k < nr,
                recipe == &recipes.recipes@[k as int],
                base == scan_recipes_spec(old(chunk)@, *cat, recipes@, k as int),
                a <= BLOCKS_IN_CHUNK,
                chunk@ == scan_anchors_spec(base.0, *cat, *recipe, a as int).0,
                cleared@ == base.1 + scan_anchors_spec(base.0, *cat, *recipe, a as int).1,
                placed@ == base.2 + scan_anchors_spec(base.0, *cat, *recipe, a as int).2,
            decreases BLOCKS_IN_CHUNK - a,
        {
            let x = (a / (CHUNK_SIZE * CHUNK_SIZE)) as i32;
            let y = ((a / CHUNK_SIZE) % CHUNK_SIZE) as i32;
            let z = (a % CHUNK_SIZE) as i32;
            let anchor = VoxelId::new(x, y, z);
            proof {
                assert(anchor == anchor_of(a as int));
            }
            if matches_at(chunk, cat, recipe, anchor) {
                let (mut cl, mut pl) = apply_at(chunk, cat, recipe, anchor);
                cleared.append(&mut cl);
                placed.append(&mut pl);
                proof {
                    let step = scan_anchors_spec(base.0, *cat, *recipe, a as int);
                    let next = scan_anchors_spec(base.0, *cat, *recipe, a as int + 1);
                    assert(cleared@ =~= base.1 + next.1);
                    assert(placed@ =~= base.2 + next.2);
                }
            }
            a = a + 1;
        }
        proof {
            let whole = scan_anchors_spec(base.0, *cat, *recipe, BLOCKS_IN_CHUNK as int);
            let next = scan_recipes_spec(old(chunk)@, *cat, recipes@, k as int + 1);
            assert(cleared@ =~= next.1);
            assert(placed@ =~= next.2);
        }
        k = k + 1;
    }
    (cleared, placed)
}

} // verus!


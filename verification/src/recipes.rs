//! Declarative multi-block recipes.
//!
//! A recipe is a flat rule grid over a `size.x` x `size.y` x `size.z` volume,
//! in the chunk's own row-major order (x fastest, then z, then y: the rule
//! for relative offset `(rx, ry, rz)` sits at index
//! `rx + rz * size.x + ry * size.x * size.z`), an output, and a clear policy.
//! A constructor validates the rule count against the declared size at load
//! time; a rule naming a block kind with no catalog entry is likewise a
//! configuration error found by validation, never at match time.

use vstd::prelude::*;

use crate::blocks::{BlockKind, BlockType};
use crate::catalog::{Block, Blocks};
use crate::chunk::{VoxelId, CHUNK_SIZE};
use crate::direction::MapDirection;

verus! {

/// One cell's rule in a recipe volume.
#[derive(Clone, Copy, Debug)]
pub enum MultiBlockRule {
    /// The cell holds a solid block.
    Solid,
    /// The cell holds this block type (payload-blind).
    Specific(BlockType),
    /// The cell is air.
    Empty,
    /// The cell holds a block with a melt target.
    CanMelt,
    /// The cell holds a fuel block.
    Fuel,
}

/// What a matched recipe produces.
#[derive(Clone, Copy, Debug)]
pub enum MultiOutput {
    /// Place this block at the output offset.
    Specific(BlockType),
    /// Melt in place: read the block at this offset and replace it with its
    /// catalog melt target; a source with no melt target produces nothing.
    Melt(VoxelId),
}

/// One entry of a recipe's clear policy.
#[derive(Clone, Copy, Debug)]
pub enum ClearType {
    /// Clear the whole matched volume to air.
    All,
    /// Clear the single cell at this offset to air.
    Offset(VoxelId),
}

/// A recipe that cannot be loaded: a configuration defect found at startup.
#[derive(Clone, Copy, PartialEq, Eq, Structural, Debug)]
pub enum ConfigError {
    /// `rules.len()` differs from `size.x * size.y * size.z`.
    RuleCountMismatch,
    /// A specific-block rule names a kind the catalog has not loaded.
    UnknownBlock,
    /// An output or clear offset reaches further than a whole chunk.
    OffsetOutOfRange,
}

/// Offsets a recipe may speak of: within one chunk length of its anchor on
/// every axis.
pub open spec fn offset_in_range(p: VoxelId) -> bool {
    &&& -(CHUNK_SIZE as int) <= p.x <= CHUNK_SIZE
    &&& -(CHUNK_SIZE as int) <= p.y <= CHUNK_SIZE
    &&& -(CHUNK_SIZE as int) <= p.z <= CHUNK_SIZE
}

fn check_offset_in_range(p: VoxelId) -> (r: bool)
    ensures
        r == offset_in_range(p),
{
    -(CHUNK_SIZE as i32) <= p.x && p.x <= CHUNK_SIZE as i32 && -(CHUNK_SIZE as i32) <= p.y && p.y
        <= CHUNK_SIZE as i32 && -(CHUNK_SIZE as i32) <= p.z && p.z <= CHUNK_SIZE as i32
}

/// Does `rule` accept a cell holding `block`, whose catalog descriptor is
/// `desc`?
pub open spec fn rule_applies_spec(rule: MultiBlockRule, block: BlockType, desc: Block) -> bool {
    match rule {
        MultiBlockRule::Solid => desc.solid,
        MultiBlockRule::Specific(cmp) => block.kind_spec() == cmp.kind_spec(),
        MultiBlockRule::Empty => block.kind_spec() == BlockKind::Air,
        MultiBlockRule::CanMelt => desc.melts_into is Some,
        MultiBlockRule::Fuel => desc.fuel,
    }
}

impl MultiBlockRule {
    pub fn applies_to(&self, block: BlockType, desc: &Block) -> (r: bool)
        ensures
            r == rule_applies_spec(*self, block, *desc),
    {
        match self {
            MultiBlockRule::Solid => desc.is_solid(),
            MultiBlockRule::Specific(cmp) => block.kind() == cmp.kind(),
            MultiBlockRule::Empty => block.kind() == BlockKind::Air,
            MultiBlockRule::CanMelt => desc.can_melt(),
            MultiBlockRule::Fuel => desc.is_fuel(),
        }
    }
}

/// The relative offset of rule index `j`, inverting the row-major rule order.
pub open spec fn rule_offset(size: VoxelId, j: int) -> VoxelId {
    VoxelId {
        x: (j % (size.x as int)) as i32,
        y: (j / ((size.x * size.z) as int)) as i32,
        z: ((j / (size.x as int)) % (size.z as int)) as i32,
    }
}

/// A multi-block structure recipe.
#[derive(Clone, Debug)]
pub struct MultiBlockRecipe {
    /// Extent of the rule volume on each axis.
    pub size: VoxelId,
    /// One rule per volume cell, row-major (x fastest, then z, then y).
    pub rules: Vec<MultiBlockRule>,
    /// What a match produces.
    pub output_block: MultiOutput,
    /// Where (relative to the anchor) a specific output block is placed.
    pub output_offset: VoxelId,
    /// Which cells a match clears back to air.
    pub output_clear: Vec<ClearType>,
}

impl MultiBlockRecipe {
    /// A loadable recipe: positive extents no larger than a chunk, and
    /// exactly one rule per volume cell.
    pub open spec fn wf(self) -> bool {
        &&& 1 <= self.size.x <= CHUNK_SIZE
        &&& 1 <= self.size.y <= CHUNK_SIZE
        &&& 1 <= self.size.z <= CHUNK_SIZE
        &&& self.rules@.len() == self.size.x * self.size.y * self.size.z
        &&& offset_in_range(self.output_offset)
        &&& (self.output_block matches MultiOutput::Melt(off) ==> offset_in_range(off))
        &&& forall|k: int|
            0 <= k < self.output_clear@.len() ==> (#[trigger] self.output_clear@[k] matches
            ClearType::Offset(off) ==> offset_in_range(off))
    }

    /// Every specific-block rule resolves in `cat`.
    pub open spec fn resolvable(self, cat: Blocks) -> bool {
        forall|j: int|
            0 <= j < self.rules@.len() ==> match #[trigger] self.rules@[j] {
                MultiBlockRule::Specific(b) => cat.entry(b.kind_spec()) is Some,
                _ => true,
            }
    }

    /// Build a recipe, validating the rule count against the declared size.
    pub fn new(
        size: VoxelId,
        rules: Vec<MultiBlockRule>,
        output_block: MultiOutput,
        output_offset: VoxelId,
        output_clear: Vec<ClearType>,
    ) -> (r: Result<MultiBlockRecipe, ConfigError>)
        requires
            1 <= size.x <= CHUNK_SIZE,
            1 <= size.y <= CHUNK_SIZE,
            1 <= size.z <= CHUNK_SIZE,
        ensures
            match r {
                Ok(recipe) => {
                    &&& recipe == (MultiBlockRecipe {
                        size,
                        rules,
                        output_block,
                        output_offset,
                        output_clear,
                    })
                    &&& recipe.wf()
                },
                Err(ConfigError::RuleCountMismatch) => rules@.len() != size.x * size.y * size.z,
                Err(ConfigError::OffsetOutOfRange) => {
                    &&& rules@.len() == size.x * size.y * size.z
                    &&& !(MultiBlockRecipe { size, rules, output_block, output_offset, output_clear }).wf()
                },
                Err(_) => false,
            },
    {
        proof {
            assert((size.x as int) * (size.y as int) <= 256 && (size.x as int) * (size.y as int)
                * (size.z as int) <= 4096) by (nonlinear_arith)
                requires
                    1 <= size.x <= 16,
                    1 <= size.y <= 16,
                    1 <= size.z <= 16,
            ;
        }
        let volume: usize = (size.x as usize) * (size.y as usize) * (size.z as usize);
        if rules.len() != volume {
            return Err(ConfigError::RuleCountMismatch);
        }
        if !check_offset_in_range(output_offset) {
            return Err(ConfigError::OffsetOutOfRange);
        }
        if let MultiOutput::Melt(off) = output_block {
            if !check_offset_in_range(off) {
                return Err(ConfigError::OffsetOutOfRange);
            }
        }
        let n_clear = output_clear.len();
        let mut k: usize = 0;
        while k < n_clear
            invariant
                n_clear == output_clear@.len(),
                k <= n_clear,
                rules@.len() == size.x * size.y * size.z,
                forall|j: int|
                    0 <= j < k ==> (#[trigger] output_clear@[j] matches ClearType::Offset(off)
                        ==> offset_in_range(off)),
            decreases n_clear - k,
        {
            if let ClearType::Offset(off) = &output_clear[k] {
                if !check_offset_in_range(*off) {
                    proof {
                        let r2 = MultiBlockRecipe {
                            size,
                            rules,
                            output_block,
                            output_offset,
                            output_clear,
                        };
                        if r2.wf() {
                            assert(r2.output_clear@[k as int] matches ClearType::Offset(o)
                                ==> offset_in_range(o));
                        }
                    }
                    return Err(ConfigError::OffsetOutOfRange);
                }
            }
            k = k + 1;
        }
        Ok(MultiBlockRecipe { size, rules, output_block, output_offset, output_clear })
    }

    /// Startup validation against a loaded catalog: every specific-block rule
    /// must have a descriptor.
    pub fn validate(&self, cat: &Blocks) -> (r: Result<(), ConfigError>)
        ensures
            match r {
                Ok(()) => self.resolvable(*cat),
                Err(ConfigError::UnknownBlock) => !self.resolvable(*cat),
                Err(_) => false,
            },
    {
        let n = self.rules.len();
        let mut i: usize = 0;
        while i < n
            invariant
                n == self.rules@.len(),
                i <= n,
                forall|j: int|
                    0 <= j < i ==> match #[trigger] self.rules@[j] {
                        MultiBlockRule::Specific(b) => cat.entry(b.kind_spec()) is Some,
                        _ => true,
                    },
            decreases n - i,
        {
            if let MultiBlockRule::Specific(b) = &self.rules[i] {
                if cat.resolve(*b).is_err() {
                    return Err(ConfigError::UnknownBlock);
                }
            }
            i = i + 1;
        }
        Ok(())
    }
}

/// The furnace recipe's rule grid: a ring of eight stone walls around one
/// empty centre cell in the middle layer, everything else empty.
pub open spec fn furnace_rules() -> Seq<MultiBlockRule> {
    Seq::new(
        27,
        |j: int|
            if 9 <= j <= 17 && j != 13 {
                MultiBlockRule::Specific(BlockType::Stone)
            } else {
                MultiBlockRule::Empty
            },
    )
}

/// The furnace recipe: the grid above over a 3 x 3 x 3 volume, producing a
/// furnace at the centre and clearing the whole volume.
pub open spec fn is_furnace_recipe(r: MultiBlockRecipe) -> bool {
    &&& r.size == (VoxelId { x: 3, y: 3, z: 3 })
    &&& r.rules@ == furnace_rules()
    &&& r.output_block == MultiOutput::Specific(BlockType::Furnace)
    &&& r.output_offset == (VoxelId { x: 1, y: 1, z: 1 })
    &&& r.output_clear@ == seq![ClearType::All]
}

/// The smelt recipe: fuel under a furnace under a meltable block, melting the
/// top block in place and clearing the fuel and the melted cell.
pub open spec fn is_smelt_recipe(r: MultiBlockRecipe) -> bool {
    &&& r.size == (VoxelId { x: 1, y: 3, z: 1 })
    &&& r.rules@ == seq![
        MultiBlockRule::Fuel,
        MultiBlockRule::Specific(BlockType::Furnace),
        MultiBlockRule::CanMelt,
    ]
    &&& r.output_block == MultiOutput::Melt(VoxelId { x: 0, y: 2, z: 0 })
    &&& r.output_offset == (VoxelId { x: 0, y: 2, z: 0 })
    &&& r.output_clear@ == seq![
        ClearType::Offset(VoxelId { x: 0, y: 0, z: 0 }),
        ClearType::Offset(VoxelId { x: 0, y: 2, z: 0 }),
    ]
}

/// The drill recipe's rule grid: iron blocks on the solid core's four sides
/// and above and below it along the y column's neighbours, a solid block
/// above the core, everything else empty.
pub open spec fn drill_rules() -> Seq<MultiBlockRule> {
    Seq::new(
        27,
        |j: int|
            if j == 4 || j == 10 || j == 12 || j == 14 || j == 16 {
                MultiBlockRule::Specific(BlockType::IronBlock)
            } else if j == 13 || j == 22 {
                MultiBlockRule::Solid
            } else {
                MultiBlockRule::Empty
            },
    )
}

/// The drill recipe: the grid above, producing a downward drill at the centre
/// and clearing the whole volume.
pub open spec fn is_drill_recipe(r: MultiBlockRecipe) -> bool {
    &&& r.size == (VoxelId { x: 3, y: 3, z: 3 })
    &&& r.rules@ == drill_rules()
    &&& r.output_block == MultiOutput::Specific(BlockType::Drill(MapDirection::Down))
    &&& r.output_offset == (VoxelId { x: 1, y: 1, z: 1 })
    &&& r.output_clear@ == seq![ClearType::All]
}

/// The score-block recipe's rule grid: a cube of iron blocks around one
/// copper block at the centre.
pub open spec fn score_rules() -> Seq<MultiBlockRule> {
    Seq::new(
        27,
        |j: int|
            if j == 13 {
                MultiBlockRule::Specific(BlockType::CopperBlock)
            } else {
                MultiBlockRule::Specific(BlockType::IronBlock)
            },
    )
}

/// The score-block recipe: the grid above, producing a score block at the
/// centre and clearing the whole volume.
pub open spec fn is_score_recipe(r: MultiBlockRecipe) -> bool {
    &&& r.size == (VoxelId { x: 3, y: 3, z: 3 })
    &&& r.rules@ == score_rules()
    &&& r.output_block == MultiOutput::Specific(BlockType::Score)
    &&& r.output_offset == (VoxelId { x: 1, y: 1, z: 1 })
    &&& r.output_clear@ == seq![ClearType::All]
}

/// The piston recipe's rule grid: two iron layers each cored with a cobalt
/// block, under a lid of copper blocks.
pub open spec fn piston_rules() -> Seq<MultiBlockRule> {
    Seq::new(
        27,
        |j: int|
            if j == 4 || j == 13 {
                MultiBlockRule::Specific(BlockType::CobaltBlock)
            } else if j >= 18 {
                MultiBlockRule::Specific(BlockType::CopperBlock)
            } else {
                MultiBlockRule::Specific(BlockType::IronBlock)
            },
    )
}

/// The piston recipe: the grid above, producing a downward piston at the
/// centre and clearing the whole volume.
pub open spec fn is_piston_recipe(r: MultiBlockRecipe) -> bool {
    &&& r.size == (VoxelId { x: 3, y: 3, z: 3 })
    &&& r.rules@ == piston_rules()
    &&& r.output_block == MultiOutput::Specific(BlockType::Piston(MapDirection::Down))
    &&& r.output_offset == (VoxelId { x: 1, y: 1, z: 1 })
    &&& r.output_clear@ == seq![ClearType::All]
}

/// Append `count` copies of `rule`.
fn push_rules(rules: &mut Vec<MultiBlockRule>, rule: MultiBlockRule, count: usize)
    requires
        old(rules)@.len() + count <= usize::MAX,
    ensures
        final(rules)@ == old(rules)@ + Seq::new(count as nat, |i: int| rule),
{
    let mut i: usize = 0;
    while i < count
        invariant
            i <= count,
            rules@ == old(rules)@ + Seq::new(i as nat, |j: int| rule),
        decreases count - i,
    {
        rules.push(rule);
        proof {
            assert(rules@ =~= old(rules)@ + Seq::new((i + 1) as nat, |j: int| rule));
        }
        i = i + 1;
    }
}

/// The clear policy that clears the whole matched volume.
fn clear_all() -> (v: Vec<ClearType>)
    ensures
        v@ =~= seq![ClearType::All],
{
    let mut v: Vec<ClearType> = Vec::new();
    v.push(ClearType::All);
    v
}

/// The registry of loaded recipes; the matcher tries each in order.
pub struct MultiBlocks {
    pub recipes: Vec<MultiBlockRecipe>,
}

impl View for MultiBlocks {
    type V = Seq<MultiBlockRecipe>;

    open spec fn view(&self) -> Seq<MultiBlockRecipe> {
        self.recipes@
    }
}

impl MultiBlocks {
    /// Every loaded recipe is well-formed.
    pub open spec fn wf(self) -> bool {
        forall|i: int| 0 <= i < self@.len() ==> (#[trigger] self@[i]).wf()
    }

    /// An empty registry.
    pub fn new() -> (r: MultiBlocks)
        ensures
            r@ == Seq::<MultiBlockRecipe>::empty(),
            r.wf(),
    {
        MultiBlocks { recipes: Vec::new() }
    }

    /// Register one recipe.
    pub fn push(&mut self, recipe: MultiBlockRecipe)
        requires
            recipe.wf(),
        ensures
            final(self)@ == old(self)@.push(recipe),
            old(self).wf() ==> final(self).wf(),
    {
        self.recipes.push(recipe);
        proof {
            if old(self).wf() {
                assert forall|i: int| 0 <= i < self@.len() implies (#[trigger] self@[i]).wf() by {
                    if i < self@.len() - 1 {
                        assert(self@[i] == old(self)@[i]);
                    }
                }
            }
        }
    }

    /// The game's recipe book: furnace, smelt, drill, score block and
    /// piston, in that order.
    pub fn standard() -> (r: MultiBlocks)
        ensures
            r.wf(),
            r@.len() == 5,
            is_furnace_recipe(r@[0]),
            is_smelt_recipe(r@[1]),
            is_drill_recipe(r@[2]),
            is_score_recipe(r@[3]),
            is_piston_recipe(r@[4]),
    {
        let mut out = MultiBlocks::new();

        // Furnace: a ring of eight stone walls around one empty centre cell
        // in the middle layer; the layers above and below stay empty.
        let mut rules: Vec<MultiBlockRule> = Vec::new();
        push_rules(&mut rules, MultiBlockRule::Empty, 9);
        push_rules(&mut rules, MultiBlockRule::Specific(BlockType::Stone), 4);
        push_rules(&mut rules, MultiBlockRule::Empty, 1);
        push_rules(&mut rules, MultiBlockRule::Specific(BlockType::Stone), 4);
        push_rules(&mut rules, MultiBlockRule::Empty, 9);
        let furnace = MultiBlockRecipe {
            size: VoxelId { x: 3, y: 3, z: 3 },
            rules,
            output_block: MultiOutput::Specific(BlockType::Furnace),
            output_offset: VoxelId { x: 1, y: 1, z: 1 },
            output_clear: clear_all(),
        };
        proof {
            assert(furnace.rules@ =~= furnace_rules());
            assert(furnace.wf());
            assert(is_furnace_recipe(furnace));
        }
        out.push(furnace);

        // Smelt: fuel under a furnace under a meltable block; melt the top
        // block in place and consume the fuel.
        let mut rules: Vec<MultiBlockRule> = Vec::new();
        push_rules(&mut rules, MultiBlockRule::Fuel, 1);
        push_rules(&mut rules, MultiBlockRule::Specific(BlockType::Furnace), 1);
        push_rules(&mut rules, MultiBlockRule::CanMelt, 1);
        let mut smelt_clear: Vec<ClearType> = Vec::new();
        smelt_clear.push(ClearType::Offset(VoxelId { x: 0, y: 0, z: 0 }));
        smelt_clear.push(ClearType::Offset(VoxelId { x: 0, y: 2, z: 0 }));
        let smelt = MultiBlockRecipe {
            size: VoxelId { x: 1, y: 3, z: 1 },
            rules,
            output_block: MultiOutput::Melt(VoxelId { x: 0, y: 2, z: 0 }),
            output_offset: VoxelId { x: 0, y: 2, z: 0 },
            output_clear: smelt_clear,
        };
        proof {
            assert(smelt.rules@ =~= seq![
                MultiBlockRule::Fuel,
                MultiBlockRule::Specific(BlockType::Furnace),
                MultiBlockRule::CanMelt,
            ]);
            assert(smelt.output_clear@ =~= seq![
                ClearType::Offset(VoxelId { x: 0, y: 0, z: 0 }),
                ClearType::Offset(VoxelId { x: 0, y: 2, z: 0 }),
            ]);
            assert(smelt.wf());
            assert(is_smelt_recipe(smelt));
        }
        out.push(smelt);

        // Drill: a plus of iron blocks around a solid core, standing free,
        // with a solid block above the core.
        let mut rules: Vec<MultiBlockRule> = Vec::new();
        push_rules(&mut rules, MultiBlockRule::Empty, 4);
        push_rules(&mut rules, MultiBlockRule::Specific(BlockType::IronBlock), 1);
        push_rules(&mut rules, MultiBlockRule::Empty, 5);
        push_rules(&mut rules, MultiBlockRule::Specific(BlockType::IronBlock), 1);
        push_rules(&mut rules, MultiBlockRule::Empty, 1);
        push_rules(&mut rules, MultiBlockRule::Specific(BlockType::IronBlock), 1);
        push_rules(&mut rules, MultiBlockRule::Solid, 1);
        push_rules(&mut rules, MultiBlockRule::Specific(BlockType::IronBlock), 1);
        push_rules(&mut rules, MultiBlockRule::Empty, 1);
        push_rules(&mut rules, MultiBlockRule::Specific(BlockType::IronBlock), 1);
        push_rules(&mut rules, MultiBlockRule::Empty, 5);
        push_rules(&mut rules, MultiBlockRule::Solid, 1);
        push_rules(&mut rules, MultiBlockRule::Empty, 4);
        let drill = MultiBlockRecipe {
            size: VoxelId { x: 3, y: 3, z: 3 },
            rules,
            output_block: MultiOutput::Specific(BlockType::Drill(MapDirection::Down)),
            output_offset: VoxelId { x: 1, y: 1, z: 1 },
            output_clear: clear_all(),
        };
        proof {
            assert(drill.rules@ =~= drill_rules());
            assert(drill.wf());
            assert(is_drill_recipe(drill));
        }
        out.push(drill);

        // Score block: a cube of iron blocks around one copper block.
        let mut rules: Vec<MultiBlockRule> = Vec::new();
        push_rules(&mut rules, MultiBlockRule::Specific(BlockType::IronBlock), 13);
        push_rules(&mut rules, MultiBlockRule::Specific(BlockType::CopperBlock), 1);
        push_rules(&mut rules, MultiBlockRule::Specific(BlockType::IronBlock), 13);
        let score = MultiBlockRecipe {
            size: VoxelId { x: 3, y: 3, z: 3 },
            rules,
            output_block: MultiOutput::Specific(BlockType::Score),
            output_offset: VoxelId { x: 1, y: 1, z: 1 },
            output_clear: clear_all(),
        };
        proof {
            assert(score.rules@ =~= score_rules());
            assert(score.wf());
            assert(is_score_recipe(score));
        }
        out.push(score);

        // Piston: two iron layers each cored with cobalt, under a copper lid.
        let mut rules: Vec<MultiBlockRule> = Vec::new();
        push_rules(&mut rules, MultiBlockRule::Specific(BlockType::IronBlock), 4);
        push_rules(&mut rules, MultiBlockRule::Specific(BlockType::CobaltBlock), 1);
        push_rules(&mut rules, MultiBlockRule::Specific(BlockType::IronBlock), 8);
        push_rules(&mut rules, MultiBlockRule::Specific(BlockType::CobaltBlock), 1);
        push_rules(&mut rules, MultiBlockRule::Specific(BlockType::IronBlock), 4);
        push_rules(&mut rules, MultiBlockRule::Specific(BlockType::CopperBlock), 9);
        let piston = MultiBlockRecipe {
            size: VoxelId { x: 3, y: 3, z: 3 },
            rules,
            output_block: MultiOutput::Specific(BlockType::Piston(MapDirection::Down)),
            output_offset: VoxelId { x: 1, y: 1, z: 1 },
            output_clear: clear_all(),
        };
        proof {
            assert(piston.rules@ =~= piston_rules());
            assert(piston.wf());
            assert(is_piston_recipe(piston));
        }
        out.push(piston);

        out
    }

    /// Startup validation of every recipe against the loaded catalog: it
    /// passes exactly when every recipe resolves.
    pub fn validate(&self, cat: &Blocks) -> (r: Result<(), ConfigError>)
        ensures
            r is Ok ==> forall|i: int| 0 <= i < self@.len() ==> (#[trigger] self@[i]).resolvable(
                *cat,
            ),
            r is Err ==> exists|i: int|
                0 <= i < self@.len() && !(#[trigger] self@[i]).resolvable(*cat),
            r matches Err(e) ==> e == ConfigError::UnknownBlock,
    {
        let n = self.recipes.len();
        let mut i: usize = 0;
        while i < n
            invariant
                n == self@.len(),
                i <= n,
                forall|j: int| 0 <= j < i ==> (#[trigger] self@[j]).resolvable(*cat),
            decreases n - i,
        {
            if let Err(e) = self.recipes[i].validate(cat) {
                return Err(e);
            }
            i = i + 1;
        }
        Ok(())
    }
}

} // verus!

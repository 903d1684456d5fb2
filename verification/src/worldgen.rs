//! Procedural chunk generation: a biome sampler over a seeded generator.
//!
//! Each overworld hexagon names a biome (`WorldType`) and a seed; generation
//! walks all cells in linear-index order and samples each one from a single
//! generator stream. Every draw is a function of the generator state alone
//! (see `crate::rng`), so the whole chunk is a function of biome and seed:
//! regenerating with the same pair is bit-identical. Each biome's sampling
//! policy is a fixed integer probability table (for instance one in four
//! cells of a coal biome is coal), chunk content itself is domain data.

use vstd::prelude::*;

use crate::blocks::BlockType;
use crate::chunk::{VoxelChunk, VoxelId, BLOCKS_IN_CHUNK, CHUNK_SIZE};
use crate::hex::HexId;
use crate::rng::{draw_below, rng_below, rng_from_seed, rng_state, seeded_state};

verus! {

/// The biome of one overworld hexagon.
#[derive(Clone, Copy, PartialEq, Eq, Structural, Hash, Debug)]
pub enum WorldType {
    Empty,
    Stone,
    Coal,
    Iron,
    Sand,
    Cobalt,
    Copper,
    Potassium,
}

impl Default for WorldType {
    fn default() -> (r: Self)
        ensures
            r == WorldType::Empty,
    {
        WorldType::Empty
    }
}

/// What one sample yields: the block for the cell and the generator state the
/// draw(s) leave behind.
pub open spec fn sample_spec(world: WorldType, state: Seq<u8>, pos: VoxelId) -> (
    BlockType,
    Seq<u8>,
) {
    if pos.y == -1 {
        (BlockType::BedRock, state)
    } else {
        match world {
            WorldType::Empty => (BlockType::Air, state),
            WorldType::Stone => (BlockType::Stone, state),
            WorldType::Coal => {
                let (v, s2) = draw_below(state, 4);
                (if v == 0 { BlockType::Coal } else { BlockType::Stone }, s2)
            },
            WorldType::Iron => {
                let (v, s2) = draw_below(state, 4);
                (if v == 0 { BlockType::IronOre } else { BlockType::Stone }, s2)
            },
            WorldType::Cobalt => {
                let (v, s2) = draw_below(state, 4);
                (if v == 0 { BlockType::CobaltOre } else { BlockType::Stone }, s2)
            },
            WorldType::Sand => {
                if pos.y > 10 {
                    (BlockType::Air, state)
                } else if pos.y == 10 {
                    let (v, s2) = draw_below(state, 10);
                    (if v < 9 { BlockType::Air } else { BlockType::Sand }, s2)
                } else if pos.y == 9 {
                    let (v, s2) = draw_below(state, 10);
                    (if v < 6 { BlockType::Air } else { BlockType::Sand }, s2)
                } else if pos.y == 8 {
                    let (v, s2) = draw_below(state, 10);
                    (if v < 3 { BlockType::Air } else { BlockType::Sand }, s2)
                } else if pos.y == 7 {
                    let (v, s2) = draw_below(state, 10);
                    (if v < 1 { BlockType::Air } else { BlockType::Sand }, s2)
                } else {
                    (BlockType::Sand, state)
                }
            },
            WorldType::Copper => {
                let (v, s2) = draw_below(state, 1000);
                (
                    if (v as int) < 600 - 25 * pos.y {
                        BlockType::CopperOre
                    } else {
                        BlockType::Stone
                    },
                    s2,
                )
            },
            WorldType::Potassium => {
                let (one, s2) = draw_below(state, (17600 - 900 * pos.y) as u32);
                let (two, s3) = draw_below(s2, (900 * pos.y + 1600) as u32);
                if one > 8000 && one > two {
                    (BlockType::Magnesium, s3)
                } else if two > 8000 && two < one {
                    (BlockType::Sodium, s3)
                } else if two < 8000 && one > two {
                    (BlockType::Potassium, s3)
                } else {
                    let (v, s4) = draw_below(s3, 4);
                    (
                        if v == 1 {
                            BlockType::Sodium
                        } else if v == 2 {
                            BlockType::Potassium
                        } else {
                            BlockType::Magnesium
                        },
                        s4,
                    )
                }
            },
        }
    }
}

impl WorldType {
    /// Sample the block for one cell, advancing the generator.
    ///
    /// Positions above the chunk (or more than one layer below it) are left
    /// out: the biome tables are only defined over the chunk's own layers.
    pub fn sample(&self, rng: &mut rand::rngs::StdRng, pos: VoxelId) -> (b: BlockType)
        requires
            -1 <= pos.y < CHUNK_SIZE,
        ensures
            b == sample_spec(*self, rng_state(*old(rng)), pos).0,
            rng_state(*final(rng)) == sample_spec(*self, rng_state(*old(rng)), pos).1,
    {
        if pos.y == -1 {
            return BlockType::BedRock;
        }
        match self {
            WorldType::Empty => BlockType::Air,
            WorldType::Stone => BlockType::Stone,
            WorldType::Coal => {
                let v = rng_below(rng, 4);
                if v == 0 {
                    BlockType::Coal
                } else {
                    BlockType::Stone
                }
            },
            WorldType::Iron => {
                let v = rng_below(rng, 4);
                if v == 0 {
                    BlockType::IronOre
                } else {
                    BlockType::Stone
                }
            },
            WorldType::Cobalt => {
                let v = rng_below(rng, 4);
                if v == 0 {
                    BlockType::CobaltOre
                } else {
                    BlockType::Stone
                }
            },
            WorldType::Sand => {
                if pos.y > 10 {
                    BlockType::Air
                } else if pos.y == 10 {
                    let v = rng_below(rng, 10);
                    if v < 9 {
                        BlockType::Air
                    } else {
                        BlockType::Sand
                    }
                } else if pos.y == 9 {
                    let v = rng_below(rng, 10);
                    if v < 6 {
                        BlockType::Air
                    } else {
                        BlockType::Sand
                    }
                } else if pos.y == 8 {
                    let v = rng_below(rng, 10);
                    if v < 3 {
                        BlockType::Air
                    } else {
                        BlockType::Sand
                    }
                } else if pos.y == 7 {
                    let v = rng_below(rng, 10);
                    if v < 1 {
                        BlockType::Air
                    } else {
                        BlockType::Sand
                    }
                } else {
                    BlockType::Sand
                }
            },
            WorldType::Copper => {
                let v = rng_below(rng, 1000);
                let threshold: i32 = 600 - 25 * pos.y;
                if threshold > 0 && v < threshold as u32 {
                    BlockType::CopperOre
                } else {
                    BlockType::Stone
                }
            },
            WorldType::Potassium => {
                let one = rng_below(rng, (17600 - 900 * pos.y) as u32);
                let two = rng_below(rng, (900 * pos.y + 1600) as u32);
                if one > 8000 && one > two {
                    BlockType::Magnesium
                } else if two > 8000 && two < one {
                    BlockType::Sodium
                } else if two < 8000 && one > two {
                    BlockType::Potassium
                } else {
                    let v = rng_below(rng, 4);
                    if v == 1 {
                        BlockType::Sodium
                    } else if v == 2 {
                        BlockType::Potassium
                    } else {
                        BlockType::Magnesium
                    }
                }
            },
        }
    }
}

/// The cell position of linear index `i`.
pub open spec fn index_pos(i: int) -> VoxelId {
    VoxelId {
        x: (i % (CHUNK_SIZE as int)) as i32,
        y: (i / ((CHUNK_SIZE * CHUNK_SIZE) as int)) as i32,
        z: ((i / (CHUNK_SIZE as int)) % (CHUNK_SIZE as int)) as i32,
    }
}

/// The first `n` cells of a generated chunk, with the generator state left
/// after sampling them.
pub open spec fn gen_cells(world: WorldType, state: Seq<u8>, n: nat) -> (Seq<BlockType>, Seq<u8>)
    decreases n,
{
    if n == 0 {
        (Seq::empty(), state)
    } else {
        let (cells, st) = gen_cells(world, state, (n - 1) as nat);
        let (b, st2) = sample_spec(world, st, index_pos(n - 1));
        (cells.push(b), st2)
    }
}

/// An all-air chunk's cells.
pub open spec fn all_air() -> Seq<BlockType> {
    Seq::new(BLOCKS_IN_CHUNK as nat, |i: int| BlockType::Air)
}

/// Every cell of a chunk generated from `world` and `seed`. An empty biome is
/// all air without consuming the generator; any other biome samples every
/// cell, in linear-index order, from the stream seeded with `seed`.
pub open spec fn generate_spec(world: WorldType, seed: u64) -> Seq<BlockType> {
    if world == WorldType::Empty {
        all_air()
    } else {
        gen_cells(world, seeded_state(seed), BLOCKS_IN_CHUNK as nat).0
    }
}

/// Generate the chunk of a hexagon from its biome and seed.
pub fn generate(world: WorldType, seed: u64) -> (c: VoxelChunk)
    ensures
        c@ == generate_spec(world, seed),
        c@.len() == BLOCKS_IN_CHUNK,
{
    if let WorldType::Empty = world {
        let c = VoxelChunk::new();
        proof {
            assert(c@ =~= all_air());
        }
        return c;
    }
    let mut rng = rng_from_seed(seed);
    let mut cells: Vec<BlockType> = Vec::new();
    let mut i: usize = 0;
    while i < BLOCKS_IN_CHUNK
        invariant
            world != WorldType::Empty,
            i <= BLOCKS_IN_CHUNK,
            cells@ == gen_cells(world, seeded_state(seed), i as nat).0,
            rng_state(rng) == gen_cells(world, seeded_state(seed), i as nat).1,
        decreases BLOCKS_IN_CHUNK - i,
    {
        let x = (i % CHUNK_SIZE) as i32;
        let z = ((i / CHUNK_SIZE) % CHUNK_SIZE) as i32;
        let y = (i / (CHUNK_SIZE * CHUNK_SIZE)) as i32;
        let pos = VoxelId::new(x, y, z);
        proof {
            assert(pos == index_pos(i as int));
        }
        let b = world.sample(&mut rng, pos);
        cells.push(b);
        i = i + 1;
    }
    proof {
        assert(cells@.len() == BLOCKS_IN_CHUNK) by {
            lemma_gen_cells_len(world, seeded_state(seed), BLOCKS_IN_CHUNK as nat);
        }
    }
    VoxelChunk::from_cells(cells)
}

/// A generated prefix has as many cells as were sampled.
pub proof fn lemma_gen_cells_len(world: WorldType, state: Seq<u8>, n: nat)
    ensures
        gen_cells(world, state, n).0.len() == n,
    decreases n,
{
    if n > 0 {
        lemma_gen_cells_len(world, state, (n - 1) as nat);
    }
}

/// Generation is deterministic: two chunks generated from the same biome and
/// seed hold identical cells.
pub proof fn lemma_generate_deterministic(
    c1: Seq<BlockType>,
    c2: Seq<BlockType>,
    world: WorldType,
    seed: u64,
)
    requires
        c1 == generate_spec(world, seed),
        c2 == generate_spec(world, seed),
    ensures
        c1 == c2,
{
}

/// The generator seed of a hexagon's chunk, packed from its coordinates.
pub open spec fn chunk_seed_spec(hex: HexId) -> u64 {
    ((hex.q as u64) << 32u64) | (hex.r as u64)
}

/// The seed of a hexagon's chunk, from its axial coordinates.
pub fn chunk_seed(hex: HexId) -> (s: u64)
    ensures
        s == chunk_seed_spec(hex),
{
    ((hex.q as u64) << 32u64) | (hex.r as u64)
}

} // verus!

//! The block catalog: one behavioural descriptor per block kind.
//!
//! The catalog is loaded once at startup from declarative per-block data and
//! is read-only afterwards. A block kind with no descriptor is a
//! configuration defect: `resolve` reports it as `CatalogError::NotFound`,
//! and a complete catalog (validated at startup) never produces it.

use vstd::prelude::*;

use crate::blocks::{BlockKind, BlockType, KIND_COUNT};

verus! {

/// The behavioural flags of one block kind.
#[derive(Clone, Copy, Debug)]
pub struct Block {
    /// The block this descriptor belongs to.
    pub id: BlockType,
    /// Solid blocks get a collider and satisfy solid recipe rules.
    pub solid: bool,
    /// Fuel blocks power a melter.
    pub fuel: bool,
    /// What the block melts into, if anything.
    pub melts_into: Option<BlockType>,
    /// Blocks that mining and extraction must not pick up.
    pub no_mine: bool,
}

impl Block {
    pub fn new(
        id: BlockType,
        solid: bool,
        fuel: bool,
        melts_into: Option<BlockType>,
        no_mine: bool,
    ) -> (b: Block)
        ensures
            b == (Block { id, solid, fuel, melts_into, no_mine }),
    {
        Block { id, solid, fuel, melts_into, no_mine }
    }

    pub fn get_type(&self) -> (t: BlockType)
        ensures
            t == self.id,
    {
        self.id
    }

    pub fn is_solid(&self) -> (r: bool)
        ensures
            r == self.solid,
    {
        self.solid
    }

    pub fn is_fuel(&self) -> (r: bool)
        ensures
            r == self.fuel,
    {
        self.fuel
    }

    pub fn melt(&self) -> (r: Option<BlockType>)
        ensures
            r == self.melts_into,
    {
        self.melts_into
    }

    pub fn can_melt(&self) -> (r: bool)
        ensures
            r == self.melts_into.is_some(),
    {
        self.melts_into.is_some()
    }

    pub fn can_mine(&self) -> (r: bool)
        ensures
            r == !self.no_mine,
    {
        !self.no_mine
    }
}

/// A catalog lookup on a kind that was never loaded.
#[derive(Clone, Copy, PartialEq, Eq, Structural, Debug)]
pub enum CatalogError {
    NotFound,
}

/// The kind whose `index_spec` is `i`; the inverse of `BlockKind::index_spec`.
pub open spec fn kind_at(i: int) -> BlockKind {
    if i == 0 {
        BlockKind::Air
    } else if i == 1 {
        BlockKind::Stone
    } else if i == 2 {
        BlockKind::Coal
    } else if i == 3 {
        BlockKind::IronOre
    } else if i == 4 {
        BlockKind::IronBlock
    } else if i == 5 {
        BlockKind::BedRock
    } else if i == 6 {
        BlockKind::Score
    } else if i == 7 {
        BlockKind::Furnace
    } else if i == 8 {
        BlockKind::Drill
    } else if i == 9 {
        BlockKind::Sand
    } else if i == 10 {
        BlockKind::Glass
    } else if i == 11 {
        BlockKind::CobaltOre
    } else if i == 12 {
        BlockKind::CobaltBlock
    } else if i == 13 {
        BlockKind::CopperOre
    } else if i == 14 {
        BlockKind::CopperBlock
    } else if i == 15 {
        BlockKind::Sodium
    } else if i == 16 {
        BlockKind::Potassium
    } else if i == 17 {
        BlockKind::Magnesium
    } else {
        BlockKind::Piston
    }
}

pub proof fn lemma_kind_index_inverse(i: int)
    requires
        0 <= i < KIND_COUNT,
    ensures
        kind_at(i).index_spec() == i,
{
}

pub proof fn lemma_index_kind_inverse(k: BlockKind)
    ensures
        kind_at(k.index_spec()) == k,
{
}

/// The descriptor a complete catalog resolves `b` to.
pub open spec fn desc_of(cat: Blocks, b: BlockType) -> Block {
    cat.entry(b.kind_spec()).unwrap()
}

/// The block catalog: a dense table over kind indices.
pub struct Blocks {
    table: Vec<Option<Block>>,
}

impl Blocks {
    #[verifier::type_invariant]
    spec fn wf(self) -> bool {
        self.table@.len() == KIND_COUNT
    }

    /// The descriptor loaded for `k`, if any.
    pub closed spec fn entry(self, k: BlockKind) -> Option<Block> {
        self.table@[k.index_spec()]
    }

    /// Every kind has a descriptor.
    pub open spec fn complete(self) -> bool {
        forall|k: BlockKind| (#[trigger] self.entry(k)) is Some
    }

    /// An empty catalog: no descriptors loaded yet.
    pub fn new() -> (c: Blocks)
        ensures
            forall|k: BlockKind| (#[trigger] c.entry(k)) is None,
    {
        let mut table: Vec<Option<Block>> = Vec::new();
        let mut i: usize = 0;
        while i < KIND_COUNT
            invariant
                i <= KIND_COUNT,
                table@.len() == i,
                forall|j: int| 0 <= j < i ==> (#[trigger] table@[j]) is None,
            decreases KIND_COUNT - i,
        {
            table.push(None);
            i = i + 1;
        }
        Blocks { table }
    }

    /// Load (or replace) the descriptor of `desc.id`'s kind.
    pub fn insert(&mut self, desc: Block)
        ensures
            final(self).entry(desc.id.kind_spec()) == Some(desc),
            forall|k: BlockKind|
                k != desc.id.kind_spec() ==> #[trigger] final(self).entry(k) == old(self).entry(k),
    {
        proof {
            use_type_invariant(&*self);
        }
        let idx = desc.id.kind().index();
        self.table[idx] = Some(desc);
        proof {
            assert forall|k: BlockKind|
                k != desc.id.kind_spec() implies #[trigger] self.entry(k) == old(self).entry(
                k,
            ) by {
                lemma_index_kind_inverse(k);
                lemma_index_kind_inverse(desc.id.kind_spec());
            }
        }
    }

    /// Look a block's descriptor up; a kind that was never loaded is the
    /// `NotFound` configuration error.
    pub fn resolve(&self, block: BlockType) -> (r: Result<&Block, CatalogError>)
        ensures
            match r {
                Ok(desc) => self.entry(block.kind_spec()) == Some(*desc),
                Err(CatalogError::NotFound) => self.entry(block.kind_spec()) is None,
            },
    {
        proof {
            use_type_invariant(self);
        }
        let idx = block.kind().index();
        match &self.table[idx] {
            Some(desc) => Ok(desc),
            None => Err(CatalogError::NotFound),
        }
    }

    /// The game's standard block set: air is the one non-solid block, coal is
    /// fuel, the ores melt into their metals, sand melts into glass, and
    /// bedrock cannot be mined.
    pub fn standard() -> (c: Blocks)
        ensures
            c.complete(),
            !desc_of(c, BlockType::Air).solid,
            desc_of(c, BlockType::Stone).solid,
            desc_of(c, BlockType::Coal).fuel,
            desc_of(c, BlockType::IronOre).melts_into == Some(BlockType::IronBlock),
            desc_of(c, BlockType::Sand).melts_into == Some(BlockType::Glass),
            desc_of(c, BlockType::BedRock).no_mine,
    {
        let mut c = Blocks::new();
        c.insert(Block::new(BlockType::Air, false, false, None, false));
        c.insert(Block::new(BlockType::Stone, true, false, None, false));
        c.insert(Block::new(BlockType::Coal, true, true, None, false));
        c.insert(Block::new(BlockType::IronOre, true, false, Some(BlockType::IronBlock), false));
        c.insert(Block::new(BlockType::IronBlock, true, false, None, false));
        c.insert(Block::new(BlockType::BedRock, true, false, None, true));
        c.insert(Block::new(BlockType::Score, true, false, None, false));
        c.insert(Block::new(BlockType::Furnace, true, false, None, false));
        c.insert(
            Block::new(BlockType::Drill(crate::direction::MapDirection::Down), true, false, None, false),
        );
        c.insert(Block::new(BlockType::Sand, true, false, Some(BlockType::Glass), false));
        c.insert(Block::new(BlockType::Glass, true, false, None, false));
        c.insert(
            Block::new(BlockType::CobaltOre, true, false, Some(BlockType::CobaltBlock), false),
        );
        c.insert(Block::new(BlockType::CobaltBlock, true, false, None, false));
        c.insert(
            Block::new(BlockType::CopperOre, true, false, Some(BlockType::CopperBlock), false),
        );
        c.insert(Block::new(BlockType::CopperBlock, true, false, None, false));
        c.insert(Block::new(BlockType::Sodium, true, false, None, false));
        c.insert(Block::new(BlockType::Potassium, true, false, None, false));
        c.insert(Block::new(BlockType::Magnesium, true, false, None, false));
        c.insert(
            Block::new(BlockType::Piston(crate::direction::MapDirection::Up), true, false, None, false),
        );
        proof {
            assert forall|k: BlockKind| (#[trigger] c.entry(k)) is Some by {
                lemma_index_kind_inverse(k);
            }
        }
        c
    }

    /// Startup validation: does every kind have a descriptor?
    pub fn validate(&self) -> (r: bool)
        ensures
            r == self.complete(),
    {
        proof {
            use_type_invariant(self);
        }
        let mut i: usize = 0;
        while i < KIND_COUNT
            invariant
                self.wf(),
                i <= KIND_COUNT,
                forall|j: int| 0 <= j < i ==> (#[trigger] self.table@[j]) is Some,
            decreases KIND_COUNT - i,
        {
            if self.table[i].is_none() {
                proof {
                    lemma_kind_index_inverse(i as int);
                    assert(self.entry(kind_at(i as int)) is None);
                }
                return false;
            }
            i = i + 1;
        }
        proof {
            assert forall|k: BlockKind| (#[trigger] self.entry(k)) is Some by {
                assert(0 <= k.index_spec() < KIND_COUNT);
            }
        }
        true
    }
}

} // verus!

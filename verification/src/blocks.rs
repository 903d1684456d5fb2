//! Block identifiers and the catalog of per-block behavioural flags.
//!
//! `BlockType` is the identifier stored in a chunk cell. Directional variants
//! carry the direction they face, but equality is payload-blind: two pistons
//! facing different ways are the same block type for recipe matching and for
//! inventory stacking. `BlockKind` is the payload-stripped discriminant that
//! equality, hashing and catalog lookup go by.

use vstd::prelude::*;

use crate::direction::MapDirection;

verus! {

/// The payload-stripped discriminant of a `BlockType`.
#[derive(Clone, Copy, PartialEq, Eq, Structural, Hash, Debug)]
pub enum BlockKind {
    Air,
    Stone,
    Coal,
    IronOre,
    IronBlock,
    BedRock,
    Score,
    Furnace,
    Drill,
    Sand,
    Glass,
    CobaltOre,
    CobaltBlock,
    CopperOre,
    CopperBlock,
    Sodium,
    Potassium,
    Magnesium,
    Piston,
}

/// How many distinct `BlockKind` values exist; kind indices are below this.
pub const KIND_COUNT: usize = 19;

impl BlockKind {
    /// A distinct index below `KIND_COUNT` for each kind; the catalog is a
    /// dense table over these indices.
    pub open spec fn index_spec(&self) -> int {
        match self {
            BlockKind::Air => 0,
            BlockKind::Stone => 1,
            BlockKind::Coal => 2,
            BlockKind::IronOre => 3,
            BlockKind::IronBlock => 4,
            BlockKind::BedRock => 5,
            BlockKind::Score => 6,
            BlockKind::Furnace => 7,
            BlockKind::Drill => 8,
            BlockKind::Sand => 9,
            BlockKind::Glass => 10,
            BlockKind::CobaltOre => 11,
            BlockKind::CobaltBlock => 12,
            BlockKind::CopperOre => 13,
            BlockKind::CopperBlock => 14,
            BlockKind::Sodium => 15,
            BlockKind::Potassium => 16,
            BlockKind::Magnesium => 17,
            BlockKind::Piston => 18,
        }
    }

    pub fn index(&self) -> (i: usize)
        ensures
            i == self.index_spec(),
            i < KIND_COUNT,
    {
        match self {
            BlockKind::Air => 0,
            BlockKind::Stone => 1,
            BlockKind::Coal => 2,
            BlockKind::IronOre => 3,
            BlockKind::IronBlock => 4,
            BlockKind::BedRock => 5,
            BlockKind::Score => 6,
            BlockKind::Furnace => 7,
            BlockKind::Drill => 8,
            BlockKind::Sand => 9,
            BlockKind::Glass => 10,
            BlockKind::CobaltOre => 11,
            BlockKind::CobaltBlock => 12,
            BlockKind::CopperOre => 13,
            BlockKind::CopperBlock => 14,
            BlockKind::Sodium => 15,
            BlockKind::Potassium => 16,
            BlockKind::Magnesium => 17,
            BlockKind::Piston => 18,
        }
    }
}

/// A block identifier. `Drill` and `Piston` carry the direction they face;
/// the payload never takes part in equality.
#[derive(Clone, Copy, Debug)]
pub enum BlockType {
    Air,
    Stone,
    Coal,
    IronOre,
    IronBlock,
    BedRock,
    Score,
    Furnace,
    Drill(MapDirection),
    Sand,
    Glass,
    CobaltOre,
    CobaltBlock,
    CopperOre,
    CopperBlock,
    Sodium,
    Potassium,
    Magnesium,
    Piston(MapDirection),
}

impl BlockType {
    /// The payload-stripped discriminant.
    pub open spec fn kind_spec(&self) -> BlockKind {
        match self {
            BlockType::Air => BlockKind::Air,
            BlockType::Stone => BlockKind::Stone,
            BlockType::Coal => BlockKind::Coal,
            BlockType::IronOre => BlockKind::IronOre,
            BlockType::IronBlock => BlockKind::IronBlock,
            BlockType::BedRock => BlockKind::BedRock,
            BlockType::Score => BlockKind::Score,
            BlockType::Furnace => BlockKind::Furnace,
            BlockType::Drill(_) => BlockKind::Drill,
            BlockType::Sand => BlockKind::Sand,
            BlockType::Glass => BlockKind::Glass,
            BlockType::CobaltOre => BlockKind::CobaltOre,
            BlockType::CobaltBlock => BlockKind::CobaltBlock,
            BlockType::CopperOre => BlockKind::CopperOre,
            BlockType::CopperBlock => BlockKind::CopperBlock,
            BlockType::Sodium => BlockKind::Sodium,
            BlockType::Potassium => BlockKind::Potassium,
            BlockType::Magnesium => BlockKind::Magnesium,
            BlockType::Piston(_) => BlockKind::Piston,
        }
    }

    pub fn kind(&self) -> (k: BlockKind)
        ensures
            k == self.kind_spec(),
    {
        match self {
            BlockType::Air => BlockKind::Air,
            BlockType::Stone => BlockKind::Stone,
            BlockType::Coal => BlockKind::Coal,
            BlockType::IronOre => BlockKind::IronOre,
            BlockType::IronBlock => BlockKind::IronBlock,
            BlockType::BedRock => BlockKind::BedRock,
            BlockType::Score => BlockKind::Score,
            BlockType::Furnace => BlockKind::Furnace,
            BlockType::Drill(_) => BlockKind::Drill,
            BlockType::Sand => BlockKind::Sand,
            BlockType::Glass => BlockKind::Glass,
            BlockType::CobaltOre => BlockKind::CobaltOre,
            BlockType::CobaltBlock => BlockKind::CobaltBlock,
            BlockType::CopperOre => BlockKind::CopperOre,
            BlockType::CopperBlock => BlockKind::CopperBlock,
            BlockType::Sodium => BlockKind::Sodium,
            BlockType::Potassium => BlockKind::Potassium,
            BlockType::Magnesium => BlockKind::Magnesium,
            BlockType::Piston(_) => BlockKind::Piston,
        }
    }

    /// Two block types are the same exactly when their kinds agree.
    pub open spec fn same_kind(&self, other: &BlockType) -> bool {
        self.kind_spec() == other.kind_spec()
    }

    /// The direction a directional block faces; `Up` for every block without
    /// an orientation.
    pub open spec fn direction_spec(&self) -> MapDirection {
        match self {
            BlockType::Piston(d) => *d,
            BlockType::Drill(d) => *d,
            _ => MapDirection::Up,
        }
    }

    pub fn direction(&self) -> (d: MapDirection)
        ensures
            d == self.direction_spec(),
    {
        match self {
            BlockType::Piston(d) => *d,
            BlockType::Drill(d) => *d,
            _ => MapDirection::Up,
        }
    }

    /// The same block turned to face `direction`; blocks without an
    /// orientation are unchanged.
    pub open spec fn with_direction_spec(&self, direction: MapDirection) -> BlockType {
        match self {
            BlockType::Piston(_) => BlockType::Piston(direction),
            BlockType::Drill(_) => BlockType::Drill(direction),
            _ => *self,
        }
    }

    pub fn set_direction(&mut self, direction: MapDirection)
        ensures
            *final(self) == old(self).with_direction_spec(direction),
    {
        match self {
            BlockType::Piston(to) => {
                *to = direction;
            }
            BlockType::Drill(to) => {
                *to = direction;
            }
            _ => {}
        }
    }
}

impl PartialEq for BlockType {
    /// Payload-blind equality: only the kinds are compared.
    fn eq(&self, other: &Self) -> (r: bool) {
        self.kind() == other.kind()
    }
}

impl vstd::std_specs::cmp::PartialEqSpecImpl for BlockType {
    open spec fn obeys_eq_spec() -> bool {
        true
    }

    open spec fn eq_spec(&self, other: &Self) -> bool {
        self.kind_spec() == other.kind_spec()
    }
}

/// Directional variants of one kind are equal however they face, and their
/// payload-stripped discriminants (the values that hashing goes by) agree.
pub proof fn lemma_directional_equality(d1: MapDirection, d2: MapDirection)
    ensures
        BlockType::Piston(d1).same_kind(&BlockType::Piston(d2)),
        BlockType::Piston(d1).kind_spec() == BlockType::Piston(d2).kind_spec(),
        BlockType::Drill(d1).same_kind(&BlockType::Drill(d2)),
        BlockType::Drill(d1).kind_spec() == BlockType::Drill(d2).kind_spec(),
{
}

} // verus!

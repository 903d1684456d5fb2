//! The block catalog: lookups, completeness and the standard block set.

use voxel_core::blocks::BlockType;
use voxel_core::catalog::{Block, Blocks, CatalogError};
use voxel_core::direction::MapDirection;

#[test]
fn resolve_fails_on_an_empty_catalog() {
    let cat = Blocks::new();
    assert_eq!(cat.resolve(BlockType::Stone).err(), Some(CatalogError::NotFound));
    assert!(!cat.validate());
}

#[test]
fn resolve_finds_inserted_descriptors() {
    let mut cat = Blocks::new();
    cat.insert(Block::new(BlockType::Coal, true, true, None, false));
    let desc = cat.resolve(BlockType::Coal).unwrap();
    assert!(desc.is_solid());
    assert!(desc.is_fuel());
    assert!(desc.melt().is_none());
    assert!(desc.can_mine());
    assert_eq!(cat.resolve(BlockType::Stone).err(), Some(CatalogError::NotFound));
}

#[test]
fn directional_blocks_resolve_payload_blind() {
    let cat = Blocks::standard();
    let up = cat.resolve(BlockType::Piston(MapDirection::Up)).unwrap().get_type();
    let down = cat.resolve(BlockType::Piston(MapDirection::Down)).unwrap().get_type();
    assert_eq!(up, down);
}

#[test]
fn standard_catalog_is_complete() {
    let cat = Blocks::standard();
    assert!(cat.validate());
    for b in [
        BlockType::Air,
        BlockType::Stone,
        BlockType::Coal,
        BlockType::IronOre,
        BlockType::IronBlock,
        BlockType::BedRock,
        BlockType::Score,
        BlockType::Furnace,
        BlockType::Drill(MapDirection::Up),
        BlockType::Sand,
        BlockType::Glass,
        BlockType::CobaltOre,
        BlockType::CobaltBlock,
        BlockType::CopperOre,
        BlockType::CopperBlock,
        BlockType::Sodium,
        BlockType::Potassium,
        BlockType::Magnesium,
        BlockType::Piston(MapDirection::Up),
    ] {
        assert!(cat.resolve(b).is_ok());
    }
}

#[test]
fn standard_catalog_flags() {
    let cat = Blocks::standard();
    assert!(!cat.resolve(BlockType::Air).unwrap().is_solid());
    assert!(cat.resolve(BlockType::Stone).unwrap().is_solid());
    assert!(cat.resolve(BlockType::Coal).unwrap().is_fuel());
    assert!(!cat.resolve(BlockType::Stone).unwrap().is_fuel());
    assert_eq!(
        cat.resolve(BlockType::IronOre).unwrap().melt(),
        Some(BlockType::IronBlock)
    );
    assert_eq!(cat.resolve(BlockType::Sand).unwrap().melt(), Some(BlockType::Glass));
    assert_eq!(
        cat.resolve(BlockType::CopperOre).unwrap().melt(),
        Some(BlockType::CopperBlock)
    );
    assert!(cat.resolve(BlockType::Sand).unwrap().can_melt());
    assert!(!cat.resolve(BlockType::Stone).unwrap().can_melt());
    assert!(!cat.resolve(BlockType::BedRock).unwrap().can_mine());
    assert!(cat.resolve(BlockType::Stone).unwrap().can_mine());
}

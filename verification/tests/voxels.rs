//! Block type identity: payload-blind equality and hashing.

use std::hash::{Hash, Hasher};

use voxel_core::blocks::{BlockKind, BlockType};
use voxel_core::direction::MapDirection;

#[test]
fn hash_test() {
    let mut hasher_two = std::hash::DefaultHasher::new();
    let mut hasher_one = std::hash::DefaultHasher::new();
    BlockType::Piston(MapDirection::Up).kind().hash(&mut hasher_one);
    BlockType::Piston(MapDirection::Down).kind().hash(&mut hasher_two);
    assert!(BlockType::Piston(MapDirection::Up) == BlockType::Piston(MapDirection::Down));
    assert_eq!(hasher_one.finish(), hasher_two.finish())
}

#[test]
fn directional_equality_ignores_payload() {
    assert_eq!(
        BlockType::Drill(MapDirection::North),
        BlockType::Drill(MapDirection::South)
    );
    assert_eq!(
        BlockType::Piston(MapDirection::East),
        BlockType::Piston(MapDirection::West)
    );
    assert!(BlockType::Piston(MapDirection::Up) != BlockType::Drill(MapDirection::Up));
    assert!(BlockType::Stone != BlockType::Air);
    assert_eq!(BlockType::Stone, BlockType::Stone);
}

#[test]
fn kinds_strip_payload() {
    assert_eq!(BlockType::Piston(MapDirection::Up).kind(), BlockKind::Piston);
    assert_eq!(BlockType::Piston(MapDirection::Down).kind(), BlockKind::Piston);
    assert_eq!(BlockType::Air.kind(), BlockKind::Air);
    assert!(BlockType::Piston(MapDirection::Up).kind() != BlockType::Drill(MapDirection::Up).kind());
}

#[test]
fn direction_of_blocks() {
    assert_eq!(BlockType::Piston(MapDirection::South).direction(), MapDirection::South);
    assert_eq!(BlockType::Drill(MapDirection::East).direction(), MapDirection::East);
    assert_eq!(BlockType::Stone.direction(), MapDirection::Up);
}

#[test]
fn set_direction_turns_directional_blocks_only() {
    let mut piston = BlockType::Piston(MapDirection::Up);
    piston.set_direction(MapDirection::West);
    assert_eq!(piston.direction(), MapDirection::West);

    let mut drill = BlockType::Drill(MapDirection::Down);
    drill.set_direction(MapDirection::North);
    assert_eq!(drill.direction(), MapDirection::North);

    let mut stone = BlockType::Stone;
    stone.set_direction(MapDirection::West);
    assert_eq!(stone.direction(), MapDirection::Up);
    assert_eq!(stone, BlockType::Stone);
}

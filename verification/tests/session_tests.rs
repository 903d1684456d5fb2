//! The world session and the per-tick crafting logic.

use voxel_core::blocks::BlockType;
use voxel_core::breaking::BreakState;
use voxel_core::catalog::Blocks;
use voxel_core::chunk::{VoxelChunk, VoxelId, CHUNK_SIZE};
use voxel_core::direction::MapDirection;
use voxel_core::hex::HexId;
use voxel_core::inventory::Inventory;
use voxel_core::session::{
    drill_tick, melter_tick, piston_tick, place_block, score_tick, settle_break, NextTarget,
    PistonTarget, Score, Target, WorldSession,
};
use voxel_core::worldgen::WorldType;

#[test]
fn drills_extract_mineable_blocks_without_consuming_them() {
    let cat = Blocks::standard();
    let mut chunk = VoxelChunk::new();
    chunk.set(VoxelId::new(5, 2, 5), BlockType::IronOre);
    let out = drill_tick(&chunk, &cat, VoxelId::new(5, 3, 5), MapDirection::Up);
    assert_eq!(out, Some(BlockType::IronOre));
    // The vein is deliberately left in place.
    assert_eq!(chunk.get(VoxelId::new(5, 2, 5)), BlockType::IronOre);
}

#[test]
fn drills_respect_no_mine_blocks() {
    let cat = Blocks::standard();
    let chunk = VoxelChunk::new();
    // A drill on the floor looks at the bedrock below the chunk.
    let out = drill_tick(&chunk, &cat, VoxelId::new(5, 0, 5), MapDirection::Up);
    assert_eq!(out, None);
}

#[test]
fn drills_follow_their_orientation() {
    let cat = Blocks::standard();
    let mut chunk = VoxelChunk::new();
    chunk.set(VoxelId::new(6, 4, 5), BlockType::Coal);
    // A drill facing west extracts from the east side.
    let out = drill_tick(&chunk, &cat, VoxelId::new(7, 4, 5), MapDirection::West);
    assert_eq!(out, Some(BlockType::Coal));
}

#[test]
fn melters_need_fuel_and_a_melt_target() {
    let cat = Blocks::standard();
    assert_eq!(
        melter_tick(&cat, BlockType::IronOre, BlockType::Coal),
        Some(BlockType::IronBlock)
    );
    assert_eq!(
        melter_tick(&cat, BlockType::Sand, BlockType::Coal),
        Some(BlockType::Glass)
    );
    // No fuel below: nothing happens.
    assert_eq!(melter_tick(&cat, BlockType::IronOre, BlockType::Stone), None);
    // Fuel below but nothing meltable above: nothing happens.
    assert_eq!(melter_tick(&cat, BlockType::Stone, BlockType::Coal), None);
}

#[test]
fn score_giver_advances_on_matching_items() {
    let mut target = Target(BlockType::Coal);
    let mut next = NextTarget(0);
    let mut score = Score(0);
    // A non-matching item is discarded without scoring.
    assert!(!score_tick(&mut target, &mut next, &mut score, BlockType::Stone));
    assert_eq!(score.0, 0);
    assert_eq!(target.0, BlockType::Coal);
    // A matching item scores and advances the target sequence.
    assert!(score_tick(&mut target, &mut next, &mut score, BlockType::Coal));
    assert_eq!(score.0, 1);
    assert_eq!(target.0, BlockType::Coal); // sequence entry 0
    assert!(score_tick(&mut target, &mut next, &mut score, BlockType::Coal));
    assert_eq!(score.0, 2);
    assert_eq!(target.0, BlockType::IronOre); // sequence entry 1
}

#[test]
fn pistons_push_players_harder_than_items() {
    let (axis, player_scale) = piston_tick(MapDirection::Up, PistonTarget::Player);
    assert_eq!((axis.x(), axis.y(), axis.z()), (0, 1, 0));
    assert_eq!(player_scale, 25);
    let (axis, item_scale) = piston_tick(MapDirection::South, PistonTarget::Item);
    assert_eq!((axis.x(), axis.y(), axis.z()), (0, 0, 1));
    assert_eq!(item_scale, 5);
}

#[test]
fn placing_writes_the_cell_and_deducts() {
    let mut chunk = VoxelChunk::new();
    chunk.set(VoxelId::new(4, 0, 4), BlockType::Stone);
    let mut inv = Inventory::new(10);
    inv.add_resource(BlockType::Glass, 2);
    let placed = place_block(&mut chunk, &mut inv, VoxelId::new(4, 0, 4), MapDirection::Up);
    let (pos, block) = placed.unwrap();
    assert_eq!((pos.x(), pos.y(), pos.z()), (4, 1, 4));
    assert_eq!(block, BlockType::Glass);
    assert_eq!(chunk.get(pos), BlockType::Glass);
    assert_eq!(inv.slots[0].quantity, 1);
}

#[test]
fn placing_turns_directional_blocks_to_the_face() {
    let mut chunk = VoxelChunk::new();
    chunk.set(VoxelId::new(4, 0, 4), BlockType::Stone);
    let mut inv = Inventory::new(10);
    inv.add_resource(BlockType::Piston(MapDirection::Up), 1);
    let placed = place_block(&mut chunk, &mut inv, VoxelId::new(4, 0, 4), MapDirection::South);
    let (pos, block) = placed.unwrap();
    assert_eq!((pos.x(), pos.y(), pos.z()), (4, 0, 5));
    assert_eq!(block.direction(), MapDirection::South);
}

#[test]
fn placing_needs_a_selection_and_a_cell_inside_the_chunk() {
    let mut chunk = VoxelChunk::new();
    let mut inv = Inventory::new(10);
    // Nothing selected.
    assert!(place_block(&mut chunk, &mut inv, VoxelId::new(4, 0, 4), MapDirection::Up).is_none());
    // Target cell outside the chunk.
    inv.add_resource(BlockType::Glass, 1);
    assert!(place_block(
        &mut chunk,
        &mut inv,
        VoxelId::new(4, 15, 4),
        MapDirection::Up
    )
    .is_none());
    assert_eq!(inv.slots[0].quantity, 1);
}

#[test]
fn settling_a_break_credits_the_block() {
    let mut chunk = VoxelChunk::new();
    let pos = VoxelId::new(2, 3, 4);
    chunk.set(pos, BlockType::Coal);
    let mut breaks = BreakState::new();
    breaks.hit(pos);
    breaks.hit(pos);
    let mut inv = Inventory::new(10);
    let done = breaks.completed();
    assert_eq!(done, vec![pos]);
    let credited = settle_break(&mut chunk, &mut breaks, &mut inv, pos);
    assert_eq!(credited, Some(BlockType::Coal));
    assert_eq!(chunk.get(pos), BlockType::Air);
    assert_eq!(inv.slots[0].resource_type, Some(BlockType::Coal));
    assert_eq!(inv.slots[0].quantity, 1);
    assert_eq!(breaks.progress(pos), None);
}

#[test]
fn settling_an_air_cell_credits_nothing() {
    let mut chunk = VoxelChunk::new();
    let pos = VoxelId::new(2, 3, 4);
    let mut breaks = BreakState::new();
    let mut inv = Inventory::new(10);
    let credited = settle_break(&mut chunk, &mut breaks, &mut inv, pos);
    assert_eq!(credited, None);
    assert_eq!(inv.get_total_resource(BlockType::Air), 0);
}

#[test]
fn entering_a_hexagon_prefers_the_stored_chunk() {
    let mut stored = VoxelChunk::new();
    stored.set(VoxelId::new(0, 0, 0), BlockType::Glass);
    let session = WorldSession::enter(HexId::new(2, -3), WorldType::Stone, Some(stored));
    assert_eq!(session.chunk.get(VoxelId::new(0, 0, 0)), BlockType::Glass);
    assert_eq!(session.persistence_key(), "(2:-3)");
}

#[test]
fn entering_a_hexagon_generates_deterministically() {
    let a = WorldSession::enter(HexId::new(4, 5), WorldType::Coal, None);
    let b = WorldSession::enter(HexId::new(4, 5), WorldType::Coal, None);
    for x in 0..CHUNK_SIZE as i32 {
        for y in 0..CHUNK_SIZE as i32 {
            for z in 0..CHUNK_SIZE as i32 {
                let p = VoxelId::new(x, y, z);
                assert_eq!(a.chunk.get(p), b.chunk.get(p));
            }
        }
    }
}

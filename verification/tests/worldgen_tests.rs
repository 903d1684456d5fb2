//! Chunk generation: determinism and biome policies.

use voxel_core::blocks::{BlockKind, BlockType};
use voxel_core::chunk::{VoxelId, CHUNK_SIZE};
use voxel_core::hex::HexId;
use voxel_core::worldgen::{chunk_seed, generate, WorldType};

fn cells_equal(seed: u64, world: WorldType) -> bool {
    let a = generate(world, seed);
    let b = generate(world, seed);
    for x in 0..CHUNK_SIZE as i32 {
        for y in 0..CHUNK_SIZE as i32 {
            for z in 0..CHUNK_SIZE as i32 {
                let p = VoxelId::new(x, y, z);
                if a.get(p) != b.get(p) {
                    return false;
                }
            }
        }
    }
    true
}

#[test]
fn generation_is_deterministic() {
    for world in [
        WorldType::Empty,
        WorldType::Stone,
        WorldType::Coal,
        WorldType::Iron,
        WorldType::Sand,
        WorldType::Cobalt,
        WorldType::Copper,
        WorldType::Potassium,
    ] {
        assert!(cells_equal(7, world));
        assert!(cells_equal(0xDEAD_BEEF, world));
    }
}

#[test]
fn empty_biome_is_all_air() {
    let chunk = generate(WorldType::Empty, 123);
    for x in 0..CHUNK_SIZE as i32 {
        for y in 0..CHUNK_SIZE as i32 {
            for z in 0..CHUNK_SIZE as i32 {
                assert_eq!(chunk.get(VoxelId::new(x, y, z)), BlockType::Air);
            }
        }
    }
}

#[test]
fn stone_biome_is_all_stone() {
    let chunk = generate(WorldType::Stone, 99);
    for x in 0..CHUNK_SIZE as i32 {
        for y in 0..CHUNK_SIZE as i32 {
            for z in 0..CHUNK_SIZE as i32 {
                assert_eq!(chunk.get(VoxelId::new(x, y, z)), BlockType::Stone);
            }
        }
    }
}

#[test]
fn coal_biome_mixes_coal_into_stone() {
    // The generator really draws from the seeded stream: a chunk of 4096
    // cells at one-in-four coal odds holds both kinds.
    let chunk = generate(WorldType::Coal, 42);
    let mut kinds_seen = [false, false];
    for x in 0..CHUNK_SIZE as i32 {
        for y in 0..CHUNK_SIZE as i32 {
            for z in 0..CHUNK_SIZE as i32 {
                match chunk.get(VoxelId::new(x, y, z)).kind() {
                    BlockKind::Coal => kinds_seen[0] = true,
                    BlockKind::Stone => kinds_seen[1] = true,
                    k => panic!("unexpected block in a coal biome: {:?}", k),
                }
            }
        }
    }
    assert!(kinds_seen[0] && kinds_seen[1]);
}

#[test]
fn different_seeds_differ() {
    let a = generate(WorldType::Coal, 1);
    let b = generate(WorldType::Coal, 2);
    let mut any_difference = false;
    for x in 0..CHUNK_SIZE as i32 {
        for y in 0..CHUNK_SIZE as i32 {
            for z in 0..CHUNK_SIZE as i32 {
                let p = VoxelId::new(x, y, z);
                if a.get(p) != b.get(p) {
                    any_difference = true;
                }
            }
        }
    }
    assert!(any_difference);
}

#[test]
fn sand_biome_is_air_above_its_dunes() {
    let chunk = generate(WorldType::Sand, 5);
    for x in 0..CHUNK_SIZE as i32 {
        for z in 0..CHUNK_SIZE as i32 {
            for y in 11..CHUNK_SIZE as i32 {
                assert_eq!(chunk.get(VoxelId::new(x, y, z)), BlockType::Air);
            }
            for y in 0..7 {
                assert_eq!(chunk.get(VoxelId::new(x, y, z)), BlockType::Sand);
            }
        }
    }
}

#[test]
fn chunk_seed_packs_both_coordinates() {
    assert_eq!(chunk_seed(HexId::new(0, 0)), 0);
    assert_eq!(chunk_seed(HexId::new(1, 0)), 1u64 << 32);
    assert_eq!(chunk_seed(HexId::new(0, 1)), 1);
    assert!(chunk_seed(HexId::new(2, 3)) != chunk_seed(HexId::new(3, 2)));
}

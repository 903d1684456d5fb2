//! Chunk storage: index round-trips and bounds sentinels.

use voxel_core::blocks::BlockType;
use voxel_core::chunk::{VoxelChunk, VoxelId, BLOCKS_IN_CHUNK, CHUNK_SIZE};
use voxel_core::direction::MapDirection;

#[test]
fn index_round_trip_every_cell() {
    let n = CHUNK_SIZE as i32;
    for x in 0..n {
        for y in 0..n {
            for z in 0..n {
                let mut chunk = VoxelChunk::new();
                let p = VoxelId::new(x, y, z);
                let prev = chunk.set(p, BlockType::Stone);
                assert_eq!(prev, BlockType::Air);
                assert_eq!(chunk.get(p), BlockType::Stone);
            }
        }
    }
}

#[test]
fn set_returns_previous_value() {
    let mut chunk = VoxelChunk::new();
    let p = VoxelId::new(4, 5, 6);
    assert_eq!(chunk.set(p, BlockType::Coal), BlockType::Air);
    assert_eq!(chunk.set(p, BlockType::Sand), BlockType::Coal);
    assert_eq!(chunk.get(p), BlockType::Sand);
}

#[test]
fn set_keeps_other_cells() {
    let mut chunk = VoxelChunk::new();
    chunk.set(VoxelId::new(1, 2, 3), BlockType::Glass);
    chunk.set(VoxelId::new(3, 2, 1), BlockType::Coal);
    assert_eq!(chunk.get(VoxelId::new(1, 2, 3)), BlockType::Glass);
    assert_eq!(chunk.get(VoxelId::new(3, 2, 1)), BlockType::Coal);
    assert_eq!(chunk.get(VoxelId::new(0, 0, 0)), BlockType::Air);
}

#[test]
fn bedrock_below_the_floor() {
    let chunk = VoxelChunk::new();
    let n = CHUNK_SIZE as i32;
    for x in 0..n {
        for z in 0..n {
            assert_eq!(chunk.get(VoxelId::new(x, -1, z)), BlockType::BedRock);
        }
    }
    // The bedrock layer extends under out-of-range columns too.
    assert_eq!(chunk.get(VoxelId::new(-3, -1, 20)), BlockType::BedRock);
}

#[test]
fn out_of_range_reads_are_air() {
    let chunk = VoxelChunk::new();
    let outside = [
        VoxelId::new(-1, 0, 0),
        VoxelId::new(0, 0, -1),
        VoxelId::new(16, 0, 0),
        VoxelId::new(0, 16, 0),
        VoxelId::new(0, 0, 16),
        VoxelId::new(0, -2, 0),
        VoxelId::new(100, 7, 3),
        VoxelId::new(3, 7, -100),
    ];
    for p in outside {
        assert_eq!(chunk.get(p), BlockType::Air);
    }
}

#[test]
fn out_of_range_writes_change_nothing() {
    let mut chunk = VoxelChunk::new();
    chunk.set(VoxelId::new(2, 2, 2), BlockType::Coal);
    let outside = [
        VoxelId::new(-1, 0, 0),
        VoxelId::new(0, -1, 0),
        VoxelId::new(16, 15, 15),
        VoxelId::new(8, 16, 8),
        VoxelId::new(8, 8, -7),
    ];
    for p in outside {
        let prev = chunk.set(p, BlockType::Stone);
        assert_eq!(prev, BlockType::Air);
    }
    // The in-range content is untouched.
    assert_eq!(chunk.get(VoxelId::new(2, 2, 2)), BlockType::Coal);
    for x in 0..16 {
        for y in 0..16 {
            for z in 0..16 {
                if (x, y, z) != (2, 2, 2) {
                    assert_eq!(chunk.get(VoxelId::new(x, y, z)), BlockType::Air);
                }
            }
        }
    }
}

#[test]
fn positions_know_the_chunk_bounds() {
    assert!(VoxelId::new(0, 0, 0).in_chunk());
    assert!(VoxelId::new(15, 15, 15).in_chunk());
    assert!(!VoxelId::new(16, 0, 0).in_chunk());
    assert!(!VoxelId::new(0, -1, 0).in_chunk());
    assert_eq!(BLOCKS_IN_CHUNK, 4096);
}

#[test]
fn offsets_add_componentwise() {
    let p = VoxelId::new(1, 2, 3).offset(VoxelId::new(0, -1, 4));
    assert_eq!((p.x(), p.y(), p.z()), (1, 1, 7));
    let q = VoxelId::new(5, 0, 5).offset(MapDirection::Down.voxel_offset());
    assert_eq!((q.x(), q.y(), q.z()), (5, -1, 5));
}

//! The six axis directions a directional block (piston, drill) can face.

use vstd::prelude::*;

use crate::chunk::VoxelId;
use crate::hex::HexId;

verus! {

/// One of the six faces of a voxel cell. For the overworld the same six
/// values name the edges of a hexagon, in clockwise order starting from the
/// top edge.
#[derive(Clone, Copy, PartialEq, Eq, Structural, Hash, Debug)]
pub enum MapDirection {
    Up,
    North,
    East,
    Down,
    South,
    West,
}

impl MapDirection {
    /// The next edge of the hexagon, clockwise.
    pub fn next(&self) -> (d: MapDirection)
        ensures
            d == self.next_spec(),
    {
        match self {
            MapDirection::Down => MapDirection::East,
            MapDirection::East => MapDirection::North,
            MapDirection::North => MapDirection::Up,
            MapDirection::Up => MapDirection::West,
            MapDirection::West => MapDirection::South,
            MapDirection::South => MapDirection::Down,
        }
    }

    pub open spec fn next_spec(&self) -> MapDirection {
        match self {
            MapDirection::Down => MapDirection::East,
            MapDirection::East => MapDirection::North,
            MapDirection::North => MapDirection::Up,
            MapDirection::Up => MapDirection::West,
            MapDirection::West => MapDirection::South,
            MapDirection::South => MapDirection::Down,
        }
    }

    pub open spec fn direction_spec(&self) -> HexId {
        match self {
            MapDirection::Down => HexId { q: 0, r: -1i32 },
            MapDirection::East => HexId { q: 1, r: -1i32 },
            MapDirection::North => HexId { q: 1, r: 0 },
            MapDirection::Up => HexId { q: 0, r: 1 },
            MapDirection::West => HexId { q: -1i32, r: 1 },
            MapDirection::South => HexId { q: -1i32, r: 0 },
        }
    }

    /// The step this edge takes on the hexagon map, in axial coordinates.
    pub fn direction(&self) -> (h: HexId)
        ensures
            h == self.direction_spec(),
    {
        match self {
            MapDirection::Down => HexId::new(0, -1),
            MapDirection::East => HexId::new(1, -1),
            MapDirection::North => HexId::new(1, 0),
            MapDirection::Up => HexId::new(0, 1),
            MapDirection::West => HexId::new(-1, 1),
            MapDirection::South => HexId::new(-1, 0),
        }
    }

    pub open spec fn voxel_offset_spec(&self) -> VoxelId {
        match self {
            MapDirection::Up => VoxelId { x: 0, y: 1, z: 0 },
            MapDirection::Down => VoxelId { x: 0, y: -1i32, z: 0 },
            MapDirection::North => VoxelId { x: 0, y: 0, z: -1i32 },
            MapDirection::South => VoxelId { x: 0, y: 0, z: 1 },
            MapDirection::West => VoxelId { x: 1, y: 0, z: 0 },
            MapDirection::East => VoxelId { x: -1i32, y: 0, z: 0 },
        }
    }

    /// The unit cell step along this direction's axis in a voxel chunk.
    pub fn voxel_offset(&self) -> (p: VoxelId)
        ensures
            p == self.voxel_offset_spec(),
    {
        match self {
            MapDirection::Up => VoxelId::new(0, 1, 0),
            MapDirection::Down => VoxelId::new(0, -1, 0),
            MapDirection::North => VoxelId::new(0, 0, -1),
            MapDirection::South => VoxelId::new(0, 0, 1),
            MapDirection::West => VoxelId::new(1, 0, 0),
            MapDirection::East => VoxelId::new(-1, 0, 0),
        }
    }

    pub open spec fn opposite_spec(&self) -> MapDirection {
        match self {
            MapDirection::Up => MapDirection::Down,
            MapDirection::Down => MapDirection::Up,
            MapDirection::North => MapDirection::South,
            MapDirection::South => MapDirection::North,
            MapDirection::West => MapDirection::East,
            MapDirection::East => MapDirection::West,
        }
    }

    /// The direction facing the other way.
    pub fn opposite(&self) -> (d: MapDirection)
        ensures
            d == self.opposite_spec(),
    {
        match self {
            MapDirection::Up => MapDirection::Down,
            MapDirection::Down => MapDirection::Up,
            MapDirection::North => MapDirection::South,
            MapDirection::South => MapDirection::North,
            MapDirection::West => MapDirection::East,
            MapDirection::East => MapDirection::West,
        }
    }
}

} // verus!

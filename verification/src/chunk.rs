//! The voxel chunk: a dense 16 x 16 x 16 grid of block types with
//! bounds-checked access.
//!
//! A cell is addressed by a `VoxelId`; the linear index of an in-range cell is
//! `x + z * CHUNK_SIZE + y * CHUNK_SIZE * CHUNK_SIZE` (x fastest, then z,
//! then y). Out-of-range reads return a sentinel instead of failing: bedrock
//! one layer below the floor, air everywhere else; out-of-range writes do
//! nothing. The matcher and the mining code routinely probe one cell past the
//! chunk edge and rely on this.

use vstd::prelude::*;

use crate::blocks::BlockType;

verus! {

/// The side length of a chunk, in cells.
pub const CHUNK_SIZE: usize = 16;

/// How many cells one chunk holds.
pub const BLOCKS_IN_CHUNK: usize = 16 * 16 * 16;

/// A chunk-local cell position. Any `i32` triple is a valid value; only
/// positions inside `[0, CHUNK_SIZE)` on every axis name a stored cell.
#[derive(Clone, Copy, PartialEq, Eq, Structural, Debug)]
pub struct VoxelId {
    pub x: i32,
    pub y: i32,
    pub z: i32,
}

impl VoxelId {
    pub fn new(x: i32, y: i32, z: i32) -> (p: VoxelId)
        ensures
            p == (VoxelId { x, y, z }),
    {
        VoxelId { x, y, z }
    }

    pub fn x(&self) -> (r: i32)
        ensures
            r == self.x,
    {
        self.x
    }

    pub fn y(&self) -> (r: i32)
        ensures
            r == self.y,
    {
        self.y
    }

    pub fn z(&self) -> (r: i32)
        ensures
            r == self.z,
    {
        self.z
    }

    /// Does this position name a stored cell?
    pub open spec fn in_chunk_spec(&self) -> bool {
        0 <= self.x < CHUNK_SIZE && 0 <= self.y < CHUNK_SIZE && 0 <= self.z < CHUNK_SIZE
    }

    pub fn in_chunk(&self) -> (r: bool)
        ensures
            r == self.in_chunk_spec(),
    {
        !(self.x < 0 || self.x >= CHUNK_SIZE as i32 || self.y < 0 || self.y >= CHUNK_SIZE as i32
            || self.z < 0 || self.z >= CHUNK_SIZE as i32)
    }

    /// The linear index of an in-range position.
    pub open spec fn index_spec(&self) -> int {
        self.x + self.z * (CHUNK_SIZE as int) + self.y * (CHUNK_SIZE as int) * (CHUNK_SIZE as int)
    }

    /// Componentwise sum; recipe probing adds a relative offset to an anchor.
    pub fn offset(&self, other: VoxelId) -> (p: VoxelId)
        requires
            i32::MIN <= self.x + other.x <= i32::MAX,
            i32::MIN <= self.y + other.y <= i32::MAX,
            i32::MIN <= self.z + other.z <= i32::MAX,
        ensures
            p == vox_add(*self, other),
    {
        VoxelId { x: self.x + other.x, y: self.y + other.y, z: self.z + other.z }
    }
}

/// Componentwise sum of two positions.
pub open spec fn vox_add(a: VoxelId, b: VoxelId) -> VoxelId {
    VoxelId { x: (a.x + b.x) as i32, y: (a.y + b.y) as i32, z: (a.z + b.z) as i32 }
}

/// What a write of `block` at `pos` leaves of `cells`: an out-of-range write
/// changes nothing.
pub open spec fn spec_set(cells: Seq<BlockType>, pos: VoxelId, block: BlockType) -> Seq<
    BlockType,
> {
    if pos.in_chunk_spec() {
        cells.update(pos.index_spec(), block)
    } else {
        cells
    }
}

/// What a read of `cells` at `pos` yields, sentinels included.
pub open spec fn chunk_read(cells: Seq<BlockType>, pos: VoxelId) -> BlockType {
    if pos.y == -1 {
        BlockType::BedRock
    } else if !pos.in_chunk_spec() {
        BlockType::Air
    } else {
        cells[pos.index_spec()]
    }
}

/// A 16 x 16 x 16 grid of block types. Its view is the sequence of all
/// `BLOCKS_IN_CHUNK` cells in linear-index order.
pub struct VoxelChunk {
    cells: Vec<BlockType>,
}

impl View for VoxelChunk {
    type V = Seq<BlockType>;

    closed spec fn view(&self) -> Seq<BlockType> {
        self.cells@
    }
}

impl VoxelChunk {
    #[verifier::type_invariant]
    spec fn wf(self) -> bool {
        self.cells@.len() == BLOCKS_IN_CHUNK
    }

    /// An all-air chunk.
    pub fn new() -> (c: VoxelChunk)
        ensures
            c@.len() == BLOCKS_IN_CHUNK,
            forall|i: int| 0 <= i < BLOCKS_IN_CHUNK ==> c@[i] == BlockType::Air,
    {
        let mut cells: Vec<BlockType> = Vec::new();
        let mut i: usize = 0;
        while i < BLOCKS_IN_CHUNK
            invariant
                i <= BLOCKS_IN_CHUNK,
                cells@.len() == i,
                forall|j: int| 0 <= j < i ==> cells@[j] == BlockType::Air,
            decreases BLOCKS_IN_CHUNK - i,
        {
            cells.push(BlockType::Air);
            i = i + 1;
        }
        VoxelChunk { cells }
    }

    /// A chunk with the given cells, used by the generator and by loading.
    pub fn from_cells(cells: Vec<BlockType>) -> (c: VoxelChunk)
        requires
            cells@.len() == BLOCKS_IN_CHUNK,
        ensures
            c@ == cells@,
    {
        VoxelChunk { cells }
    }

    /// Read a cell. One layer below the floor is bedrock; every other
    /// out-of-range position reads as air.
    pub fn get(&self, pos: VoxelId) -> (b: BlockType)
        ensures
            b == chunk_read(self@, pos),
    {
        proof {
            use_type_invariant(self);
        }
        if pos.y == -1 {
            return BlockType::BedRock;
        }
        if !pos.in_chunk() {
            return BlockType::Air;
        }
        let index: usize = (pos.x as usize) + (pos.z as usize) * CHUNK_SIZE + (pos.y as usize)
            * CHUNK_SIZE * CHUNK_SIZE;
        self.cells[index]
    }

    /// Write a cell and return the previous value. An out-of-range write
    /// changes nothing and returns air.
    pub fn set(&mut self, pos: VoxelId, block: BlockType) -> (prev: BlockType)
        ensures
            pos.in_chunk_spec() ==> {
                &&& final(self)@ == old(self)@.update(pos.index_spec(), block)
                &&& prev == old(self)@[pos.index_spec()]
            },
            !pos.in_chunk_spec() ==> {
                &&& final(self)@ == old(self)@
                &&& prev == BlockType::Air
            },
            final(self)@ == spec_set(old(self)@, pos, block),
    {
        proof {
            use_type_invariant(&*self);
        }
        if !pos.in_chunk() {
            return BlockType::Air;
        }
        let index: usize = (pos.x as usize) + (pos.z as usize) * CHUNK_SIZE + (pos.y as usize)
            * CHUNK_SIZE * CHUNK_SIZE;
        let prev = self.cells[index];
        self.cells[index] = block;
        prev
    }
}

/// Writing an in-range cell and reading it back yields the written block,
/// and no other cell changes.
pub proof fn lemma_set_get_round_trip(cells: Seq<BlockType>, pos: VoxelId, block: BlockType)
    requires
        cells.len() == BLOCKS_IN_CHUNK,
        pos.in_chunk_spec(),
    ensures
        chunk_read(cells.update(pos.index_spec(), block), pos) == block,
        forall|q: VoxelId|
            q.in_chunk_spec() && q != pos ==> #[trigger] chunk_read(
                cells.update(pos.index_spec(), block),
                q,
            ) == chunk_read(cells, q),
{
    assert(0 <= pos.index_spec() < BLOCKS_IN_CHUNK);
    assert forall|q: VoxelId|
        q.in_chunk_spec() && q != pos implies #[trigger] chunk_read(
        cells.update(pos.index_spec(), block),
        q,
    ) == chunk_read(cells, q) by {
        lemma_index_injective(pos, q);
    }
}

/// Distinct in-range positions have distinct linear indices.
pub proof fn lemma_index_injective(p: VoxelId, q: VoxelId)
    requires
        p.in_chunk_spec(),
        q.in_chunk_spec(),
        p != q,
    ensures
        p.index_spec() != q.index_spec(),
{
}

/// The sentinel behaviour of reads: bedrock one layer below the floor, air at
/// every other out-of-range position.
pub proof fn lemma_bounds_sentinel(cells: Seq<BlockType>, pos: VoxelId)
    requires
        pos.y == -1 || !pos.in_chunk_spec(),
    ensures
        pos.y == -1 ==> chunk_read(cells, pos) == BlockType::BedRock,
        pos.y != -1 ==> chunk_read(cells, pos) == BlockType::Air,
{
}

} // verus!

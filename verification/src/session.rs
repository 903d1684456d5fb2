//! The active world session and the per-tick crafting logic.
//!
//! One session owns the chunk of the hexagon the player is inside, together
//! with its transient breaking state; it is built on world entry and torn
//! down (after the host persists the chunk under `persistence_key`) on exit.
//! The functions here take the decisions of the fixed-tick block logic —
//! drills, melters, score givers, pistons, placing and settling broken
//! blocks — over plain values; the host performs the physics queries and
//! entity bookkeeping around them.

use vstd::prelude::*;

use crate::blocks::BlockType;
use crate::breaking::{first_at, BreakState};
use crate::catalog::{desc_of, Blocks};
use crate::chunk::{chunk_read, spec_set, vox_add, VoxelChunk, VoxelId};
use crate::direction::MapDirection;
use crate::hex::{key_of, HexId};
use crate::inventory::{deduct_from, first_match_from, total_from, Inventory};
use crate::worldgen::{chunk_seed, chunk_seed_spec, generate, generate_spec, WorldType};

verus! {

/// The player's score.
#[derive(Clone, Copy, PartialEq, Eq, Structural, Debug)]
pub struct Score(pub i32);

/// The block type the score giver currently asks for.
#[derive(Clone, Copy, Debug)]
pub struct Target(pub BlockType);

/// The position in the fixed sequence of score targets.
#[derive(Clone, Copy, PartialEq, Eq, Structural, Debug)]
pub struct NextTarget(pub i32);

/// The fixed sequence of score targets.
pub open spec fn target_at(i: int) -> BlockType {
    if i == 0 {
        BlockType::Coal
    } else if i == 1 {
        BlockType::IronOre
    } else if i == 2 {
        BlockType::Furnace
    } else {
        BlockType::IronBlock
    }
}

impl NextTarget {
    /// The next target in the sequence; the sequence has four entries.
    pub fn next(&mut self) -> (b: BlockType)
        requires
            0 <= old(self).0 < 4,
        ensures
            final(self).0 == old(self).0 + 1,
            b == target_at(old(self).0 as int),
    {
        let out = if self.0 == 0 {
            BlockType::Coal
        } else if self.0 == 1 {
            BlockType::IronOre
        } else if self.0 == 2 {
            BlockType::Furnace
        } else {
            BlockType::IronBlock
        };
        self.0 = self.0 + 1;
        out
    }
}

/// One extractor (drill) tick: look at the cell on the drill's down side; if
/// its block may be mined, it is handed back for the host to spawn as a
/// pickup above the drill. The source cell is left unchanged on purpose:
/// extraction does not consume the vein.
pub fn drill_tick(
    chunk: &VoxelChunk,
    cat: &Blocks,
    drill_pos: VoxelId,
    facing: MapDirection,
) -> (r: Option<BlockType>)
    requires
        cat.complete(),
        drill_pos.in_chunk_spec(),
    ensures
        ({
            let below = chunk_read(
                chunk@,
                vox_add(drill_pos, facing.opposite_spec().voxel_offset_spec()),
            );
            if !desc_of(*cat, below).no_mine {
                r == Some(below)
            } else {
                r is None
            }
        }),
{
    let below_pos = drill_pos.offset(facing.opposite().voxel_offset());
    let below = chunk.get(below_pos);
    let desc = match cat.resolve(below) {
        Ok(d) => d,
        Err(_) => {
            proof {
                assert(false);
            }
            return None;
        },
    };
    if desc.can_mine() {
        Some(below)
    } else {
        None
    }
}

/// One melter tick, given the item found above and the item found below the
/// melter: when the below item is fuel and the above item has a melt target,
/// the above item becomes that target and the host despawns the fuel item;
/// any other pairing does nothing.
pub fn melter_tick(cat: &Blocks, above: BlockType, below: BlockType) -> (r: Option<BlockType>)
    requires
        cat.complete(),
    ensures
        r == (if desc_of(*cat, below).fuel {
            desc_of(*cat, above).melts_into
        } else {
            None
        }),
{
    let fuel_desc = match cat.resolve(below) {
        Ok(d) => d,
        Err(_) => {
            proof {
                assert(false);
            }
            return None;
        },
    };
    if !fuel_desc.is_fuel() {
        return None;
    }
    let melt_desc = match cat.resolve(above) {
        Ok(d) => d,
        Err(_) => {
            proof {
                assert(false);
            }
            return None;
        },
    };
    melt_desc.melt()
}

/// One score-giver tick, given the item found above it: an item of the
/// target's kind advances the target sequence and scores a point, any other
/// leaves the score untouched. The host despawns the item either way:
/// non-matching items are discarded, not refunded.
pub fn score_tick(
    target: &mut Target,
    next_target: &mut NextTarget,
    score: &mut Score,
    item: BlockType,
) -> (matched: bool)
    requires
        0 <= old(next_target).0 < 4,
        old(score).0 < i32::MAX,
    ensures
        matched == item.same_kind(&old(target).0),
        matched ==> {
            &&& final(target).0 == target_at(old(next_target).0 as int)
            &&& final(next_target).0 == old(next_target).0 + 1
            &&& final(score).0 == old(score).0 + 1
        },
        !matched ==> {
            &&& final(target).0 == old(target).0
            &&& final(next_target).0 == old(next_target).0
            &&& final(score).0 == old(score).0
        },
{
    if item.kind() == target.0.kind() {
        target.0 = next_target.next();
        score.0 = score.0 + 1;
        true
    } else {
        false
    }
}

/// What a piston found directly above itself.
#[derive(Clone, Copy, PartialEq, Eq, Structural, Debug)]
pub enum PistonTarget {
    /// The player's body.
    Player,
    /// A loose pickup item.
    Item,
}

/// One piston tick, given what its upward cast hit: the impulse axis (the
/// piston's own up) and the dimensionless impulse scale, larger for the
/// player than for loose items. The host multiplies the scale by the
/// piston's power and applies the impulse.
pub fn piston_tick(facing: MapDirection, target: PistonTarget) -> (r: (VoxelId, u32))
    ensures
        r.0 == facing.voxel_offset_spec(),
        r.1 == match target {
            PistonTarget::Player => 25u32,
            PistonTarget::Item => 5u32,
        },
{
    let scale: u32 = match target {
        PistonTarget::Player => 25,
        PistonTarget::Item => 5,
    };
    (facing.voxel_offset(), scale)
}

/// Place the selected block against the face `face` of the cell `hit_pos`:
/// the block goes into the neighbouring cell on that face, turned to face it,
/// and one unit of it is deducted from the inventory. Nothing happens when
/// the target cell is out of the chunk or nothing is selected. Returns what
/// was placed where, for the host to spawn its entity.
pub fn place_block(
    chunk: &mut VoxelChunk,
    inventory: &mut Inventory,
    hit_pos: VoxelId,
    face: MapDirection,
) -> (r: Option<(VoxelId, BlockType)>)
    requires
        hit_pos.in_chunk_spec(),
        old(inventory).selected_slot < old(inventory).slots@.len(),
        forall|b: BlockType| total_from(old(inventory).slots@, b, 0) <= u32::MAX,
    ensures
        ({
            let pos = vox_add(hit_pos, face.voxel_offset_spec());
            let selected = old(inventory).slots@[old(inventory).selected_slot as int].resource_type;
            if !pos.in_chunk_spec() || selected is None {
                &&& r is None
                &&& final(chunk)@ == old(chunk)@
                &&& *final(inventory) == *old(inventory)
            } else {
                let placed = selected.unwrap().with_direction_spec(face);
                &&& r == Some((pos, placed))
                &&& final(chunk)@ == spec_set(old(chunk)@, pos, placed)
                &&& final(inventory).selected_slot == old(inventory).selected_slot
                &&& final(inventory).selected_row == old(inventory).selected_row
                &&& final(inventory).slots@ == (if total_from(old(inventory).slots@, placed, 0)
                    >= 1 {
                    deduct_from(old(inventory).slots@, placed, 1, 0)
                } else {
                    old(inventory).slots@
                })
            }
        }),
{
    let pos = hit_pos.offset(face.voxel_offset());
    if !pos.in_chunk() {
        return None;
    }
    let selected = inventory.get_selected_block();
    let Some(mut block_type) = selected else { return None };
    block_type.set_direction(face);
    chunk.set(pos, block_type);
    let requirements: [(BlockType, u32); 1] = [(block_type, 1)];
    let deducted = inventory.check_and_deduct_resources(&requirements);
    proof {
        let reqs = requirements@;
        assert(reqs.len() == 1 && reqs[0] == (block_type, 1u32));
        if total_from(old(inventory).slots@, block_type, 0) >= 1 {
            assert(crate::inventory::has_all(old(inventory).slots@, reqs));
            assert(crate::inventory::deduct_all_from(
                deduct_from(old(inventory).slots@, block_type, 1, 0),
                reqs,
                1,
            ) == deduct_from(old(inventory).slots@, block_type, 1, 0));
            assert(crate::inventory::deduct_all_from(old(inventory).slots@, reqs, 0)
                == deduct_from(old(inventory).slots@, block_type, 1, 0));
        } else {
            assert(!crate::inventory::has_all(old(inventory).slots@, reqs));
        }
    }
    Some((pos, block_type))
}

/// Settle one completed break: the cell is cleared, and a block that was
/// actually there is credited to the inventory and its breaking entry
/// removed. A cell that held air yields no credit (and its entry stays, as a
/// host-visible oddity to clean up with the next decay). Returns what was
/// credited, for the host to despawn the entity.
pub fn settle_break(
    chunk: &mut VoxelChunk,
    breaks: &mut BreakState,
    inventory: &mut Inventory,
    pos: VoxelId,
) -> (credited: Option<BlockType>)
    requires
        ({
            let b = chunk_read(old(chunk)@, pos);
            let m = first_match_from(old(inventory).slots@, b, 0);
            m >= 0 ==> old(inventory).slots@[m].quantity + 1 <= u32::MAX
        }),
    ensures
        final(chunk)@ == spec_set(old(chunk)@, pos, BlockType::Air),
        ({
            let b = chunk_read(old(chunk)@, pos);
            if pos.in_chunk_spec() && b.kind_spec() != crate::blocks::BlockKind::Air {
                &&& credited == Some(b)
                &&& ({
                    let m = first_match_from(old(inventory).slots@, b, 0);
                    let e = crate::inventory::first_empty_from(old(inventory).slots@, 0);
                    if m >= 0 {
                        final(inventory).slots@ == old(inventory).slots@.update(
                            m,
                            crate::inventory::InventorySlot {
                                resource_type: old(inventory).slots@[m].resource_type,
                                quantity: (old(inventory).slots@[m].quantity + 1) as u32,
                            },
                        )
                    } else if e >= 0 {
                        final(inventory).slots@ == old(inventory).slots@.update(
                            e,
                            crate::inventory::InventorySlot {
                                resource_type: Some(b),
                                quantity: 1u32,
                            },
                        )
                    } else {
                        final(inventory).slots@ == old(inventory).slots@
                    }
                })
                &&& ({
                    let k = first_at(old(breaks)@, pos, 0);
                    if k >= 0 {
                        final(breaks)@ == old(breaks)@.remove(k)
                    } else {
                        final(breaks)@ == old(breaks)@
                    }
                })
            } else {
                &&& credited is None
                &&& *final(inventory) == *old(inventory)
                &&& final(breaks)@ == old(breaks)@
            }
        }),
{
    let prev = chunk.set(pos, BlockType::Air);
    if !pos.in_chunk() {
        return None;
    }
    if prev.kind() == crate::blocks::BlockKind::Air {
        return None;
    }
    inventory.add_resource(prev, 1);
    breaks.remove(pos);
    Some(prev)
}

/// The active world session: the chunk of the hexagon the player entered and
/// its transient breaking state. Built on entry, persisted and dropped on
/// exit.
pub struct WorldSession {
    /// Which hexagon the session is inside.
    pub hex: HexId,
    /// The hexagon's biome.
    pub world: WorldType,
    /// The active chunk; all mining, placing and matching mutate it here.
    pub chunk: VoxelChunk,
    /// Breaking progress of cells under the pick.
    pub breaks: BreakState,
}

impl WorldSession {
    /// Enter a hexagon: take the persisted chunk when the store had one, else
    /// generate the hexagon's chunk from its biome and coordinates.
    pub fn enter(hex: HexId, world: WorldType, stored: Option<VoxelChunk>) -> (s: WorldSession)
        ensures
            s.hex == hex,
            s.world == world,
            s.breaks@ == Seq::<(VoxelId, u32)>::empty(),
            match stored {
                Some(c) => s.chunk@ == c@,
                None => s.chunk@ == generate_spec(world, chunk_seed_spec(hex)),
            },
    {
        let chunk = match stored {
            Some(c) => c,
            None => generate(world, chunk_seed(hex)),
        };
        WorldSession { hex, world, chunk, breaks: BreakState::new() }
    }

    /// The key this session's chunk is persisted under: the hexagon's
    /// canonical `(q:r)` form.
    pub fn persistence_key(&self) -> (s: String)
        ensures
            s@ == key_of(self.hex.q as int, self.hex.r as int),
    {
        self.hex.key_string()
    }
}

} // verus!

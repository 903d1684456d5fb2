//! The block-breaking state machine: accumulation, completion and decay.

use voxel_core::breaking::BreakState;
use voxel_core::chunk::VoxelId;

#[test]
fn two_hits_complete_a_break() {
    // Two hits of one half each reach 1.0, past the 0.55 threshold.
    let mut breaks = BreakState::new();
    let pos = VoxelId::new(3, 3, 3);
    breaks.hit(pos);
    assert_eq!(breaks.progress(pos), Some(500));
    assert!(breaks.completed().is_empty());
    breaks.hit(pos);
    assert_eq!(breaks.progress(pos), Some(1000));
    let done = breaks.completed();
    assert_eq!(done.len(), 1);
    assert_eq!(done[0], pos);
}

#[test]
fn one_hit_is_not_enough() {
    let mut breaks = BreakState::new();
    breaks.hit(VoxelId::new(0, 0, 0));
    assert!(breaks.completed().is_empty());
}

#[test]
fn untouched_positions_have_no_progress() {
    let breaks = BreakState::new();
    assert_eq!(breaks.progress(VoxelId::new(1, 1, 1)), None);
}

#[test]
fn decay_returns_a_position_to_untouched() {
    // Bring a cell to 0.3 of progress, then leave it alone for ticks adding
    // up to more than 0.3 / decay-rate seconds: it goes back to untouched.
    let mut breaks = BreakState::new();
    let pos = VoxelId::new(9, 2, 5);
    breaks.hit(pos);
    breaks.decay(665);  // 665 ms at 0.3/s takes 0.2 away: 0.5 -> 0.3
    assert_eq!(breaks.progress(pos), Some(300));
    breaks.decay(600);  // 0.3 -> 0.12
    assert_eq!(breaks.progress(pos), Some(120));
    breaks.decay(600);  // 1865 ms in all: past 0.3 / (0.3/s), entry gone
    assert_eq!(breaks.progress(pos), None);
    assert!(breaks.completed().is_empty());
}

#[test]
fn fine_grained_ticks_meet_the_decay_bound() {
    // Each tick's loss is rounded up, so even 16 ms ticks decay at least at
    // the stated rate: progress 0.3 is gone once the ticks sum past 1 s.
    let mut breaks = BreakState::new();
    let pos = VoxelId::new(0, 5, 0);
    breaks.hit(pos);
    breaks.decay(665);  // 0.5 -> 0.3
    assert_eq!(breaks.progress(pos), Some(300));
    for _ in 0..63 {
        breaks.decay(16);  // 63 x 16 ms = 1.008 s
    }
    assert_eq!(breaks.progress(pos), None);
}

#[test]
fn decay_keeps_other_entries() {
    let mut breaks = BreakState::new();
    let a = VoxelId::new(1, 0, 0);
    let b = VoxelId::new(2, 0, 0);
    breaks.hit(a);
    breaks.hit(b);
    breaks.hit(b);
    breaks.decay(1000);  // takes 0.3 away from each
    assert_eq!(breaks.progress(a), Some(200));
    assert_eq!(breaks.progress(b), Some(700));
}

#[test]
fn remove_drops_one_entry() {
    let mut breaks = BreakState::new();
    let a = VoxelId::new(1, 0, 0);
    let b = VoxelId::new(2, 0, 0);
    breaks.hit(a);
    breaks.hit(b);
    breaks.remove(a);
    assert_eq!(breaks.progress(a), None);
    assert_eq!(breaks.progress(b), Some(500));
}

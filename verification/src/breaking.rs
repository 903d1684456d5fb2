//! The block-breaking state machine.
//!
//! A position under active breaking carries a progress value; positions not
//! tracked are untouched. Progress is kept in milli-units: a hit adds 500
//! (one half), completion is reached at 550 (0.55), and an unhit entry decays
//! by 300 (0.3) per second of elapsed time, dropping back to untouched when
//! it reaches zero. A host feeds in hit events and tick durations, asks which
//! positions crossed the threshold, and settles them against the chunk and
//! the inventory.

use vstd::prelude::*;

use crate::chunk::VoxelId;

verus! {

/// Progress one hit adds, in milli-units.
pub const HIT_INCREMENT: u32 = 500;

/// Progress at which breaking completes, in milli-units.
pub const COMPLETION_THRESHOLD: u32 = 550;

/// Progress an unhit entry loses per second, in milli-units; each tick's
/// loss is rounded up to a whole milli-unit.
pub const DECAY_PER_SECOND: u32 = 300;

/// The first entry at or after `j` tracking `pos`, or -1.
pub open spec fn first_at(entries: Seq<(VoxelId, u32)>, pos: VoxelId, j: int) -> int
    decreases entries.len() - j,
{
    if j < 0 || j >= entries.len() {
        -1
    } else if entries[j].0 == pos {
        j
    } else {
        first_at(entries, pos, j + 1)
    }
}

/// Progress after one hit: 500 more, saturating.
pub open spec fn hit_value(p: u32) -> u32 {
    if p + HIT_INCREMENT > u32::MAX {
        u32::MAX
    } else {
        (p + HIT_INCREMENT) as u32
    }
}

/// How much progress `dt_millis` of decay takes away: the decay rate over
/// the elapsed time, rounded up to whole milli-units so that no partition of
/// elapsed time into ticks decays slower than the rate.
pub open spec fn decay_amount(dt_millis: u32) -> int {
    ((dt_millis as int) * (DECAY_PER_SECOND as int) + 999) / 1000
}

/// Each tick's decay covers its share of elapsed time: over any ticks whose
/// durations sum past `progress / DECAY_PER_SECOND` seconds, the amounts sum
/// past `progress`, so an unhit entry is back to untouched by then.
pub proof fn lemma_decay_covers_elapsed(dt_millis: u32)
    ensures
        1000 * decay_amount(dt_millis) >= (dt_millis as int) * (DECAY_PER_SECOND as int),
{
    let product = (dt_millis as int) * (DECAY_PER_SECOND as int);
    assert(1000 * ((product + 999) / 1000) >= product) by (nonlinear_arith);
}

/// The entries at or after `j` that survive losing `amount` progress, with
/// their reduced values; an entry drained to zero (or below) is dropped.
pub open spec fn decayed_from(entries: Seq<(VoxelId, u32)>, amount: int, j: int) -> Seq<
    (VoxelId, u32),
>
    decreases entries.len() - j,
{
    if j < 0 || j >= entries.len() {
        Seq::empty()
    } else {
        let rest = decayed_from(entries, amount, j + 1);
        if entries[j].1 > amount {
            seq![(entries[j].0, (entries[j].1 - amount) as u32)] + rest
        } else {
            rest
        }
    }
}

/// The positions of entries at or after `j` whose progress has crossed the
/// completion threshold.
pub open spec fn completed_from(entries: Seq<(VoxelId, u32)>, j: int) -> Seq<VoxelId>
    decreases entries.len() - j,
{
    if j < 0 || j >= entries.len() {
        Seq::empty()
    } else {
        let rest = completed_from(entries, j + 1);
        if entries[j].1 >= COMPLETION_THRESHOLD {
            seq![entries[j].0] + rest
        } else {
            rest
        }
    }
}

/// The transient breaking progress of the positions under active breaking.
/// Never persisted.
pub struct BreakState {
    entries: Vec<(VoxelId, u32)>,
}

impl View for BreakState {
    type V = Seq<(VoxelId, u32)>;

    closed spec fn view(&self) -> Seq<(VoxelId, u32)> {
        self.entries@
    }
}

impl BreakState {
    /// No position is being broken.
    pub fn new() -> (s: BreakState)
        ensures
            s@ == Seq::<(VoxelId, u32)>::empty(),
    {
        BreakState { entries: Vec::new() }
    }

    /// One hit on `pos`: an untouched position starts at the hit increment, a
    /// tracked one gains it.
    pub fn hit(&mut self, pos: VoxelId)
        ensures
            ({
                let m = first_at(old(self)@, pos, 0);
                if m >= 0 {
                    final(self)@ == old(self)@.update(
                        m,
                        (old(self)@[m].0, hit_value(old(self)@[m].1)),
                    )
                } else {
                    final(self)@ == old(self)@.push((pos, HIT_INCREMENT))
                }
            }),
    {
        let n = self.entries.len();
        let mut i: usize = 0;
        while i < n
            invariant
                n == self@.len(),
                i <= n,
                *self == *old(self),
                first_at(self@, pos, 0) == first_at(self@, pos, i as int),
            decreases n - i,
        {
            if self.entries[i].0 == pos {
                let p = self.entries[i].1;
                let bumped = if p > u32::MAX - HIT_INCREMENT {
                    u32::MAX
                } else {
                    p + HIT_INCREMENT
                };
                self.entries[i] = (pos, bumped);
                proof {
                    assert(self@ =~= old(self)@.update(
                        i as int,
                        (old(self)@[i as int].0, hit_value(old(self)@[i as int].1)),
                    ));
                }
                return ;
            }
            i = i + 1;
        }
        self.entries.push((pos, HIT_INCREMENT));
    }

    /// One tick of decay over every entry: `dt_millis` of elapsed time takes
    /// progress away, and entries drained to zero go back to untouched.
    pub fn decay(&mut self, dt_millis: u32)
        ensures
            final(self)@ == decayed_from(old(self)@, decay_amount(dt_millis), 0),
    {
        let wide_dt: u64 = dt_millis as u64;
        proof {
            assert((wide_dt as int) * (DECAY_PER_SECOND as int) + 999 <= u64::MAX
                && ((wide_dt as int) * (DECAY_PER_SECOND as int) + 999) / 1000 <= u32::MAX)
                by (nonlinear_arith)
                requires
                    wide_dt <= 0xFFFF_FFFFu64,
                    DECAY_PER_SECOND == 300,
            ;
        }
        let amt_wide: u64 = (wide_dt * (DECAY_PER_SECOND as u64) + 999) / 1000;
        let amount: u32 = amt_wide as u32;
        proof {
            assert(amount as int == decay_amount(dt_millis));
        }
        let n = self.entries.len();
        let mut out: Vec<(VoxelId, u32)> = Vec::new();
        let mut i: usize = 0;
        while i < n
            invariant
                n == self@.len(),
                i <= n,
                *self == *old(self),
                amount as int == decay_amount(dt_millis),
                decayed_from(self@, amount as int, 0) == out@ + decayed_from(
                    self@,
                    amount as int,
                    i as int,
                ),
            decreases n - i,
        {
            let (pos, p) = self.entries[i];
            if p > amount {
                out.push((pos, p - amount));
            }
            proof {
                assert(decayed_from(self@, amount as int, 0) =~= out@ + decayed_from(
                    self@,
                    amount as int,
                    i as int + 1,
                ));
            }
            i = i + 1;
        }
        self.entries = out;
    }

    /// The positions whose progress has crossed the completion threshold.
    pub fn completed(&self) -> (out: Vec<VoxelId>)
        ensures
            out@ == completed_from(self@, 0),
    {
        let n = self.entries.len();
        let mut out: Vec<VoxelId> = Vec::new();
        let mut i: usize = 0;
        while i < n
            invariant
                n == self@.len(),
                i <= n,
                completed_from(self@, 0) == out@ + completed_from(self@, i as int),
            decreases n - i,
        {
            let (pos, p) = self.entries[i];
            if p >= COMPLETION_THRESHOLD {
                out.push(pos);
            }
            proof {
                assert(completed_from(self@, 0) =~= out@ + completed_from(self@, i as int + 1));
            }
            i = i + 1;
        }
        out
    }

    /// Stop tracking `pos` (the first entry for it, if any).
    pub fn remove(&mut self, pos: VoxelId)
        ensures
            ({
                let m = first_at(old(self)@, pos, 0);
                if m >= 0 {
                    final(self)@ == old(self)@.remove(m)
                } else {
                    final(self)@ == old(self)@
                }
            }),
    {
        let n = self.entries.len();
        let mut i: usize = 0;
        while i < n
            invariant
                n == self@.len(),
                i <= n,
                *self == *old(self),
                first_at(self@, pos, 0) == first_at(self@, pos, i as int),
            decreases n - i,
        {
            if self.entries[i].0 == pos {
                self.entries.remove(i);
                return ;
            }
            i = i + 1;
        }
    }

    /// The progress of `pos`, exposed so a host can render break feedback;
    /// untouched positions have none.
    pub fn progress(&self, pos: VoxelId) -> (r: Option<u32>)
        ensures
            ({
                let m = first_at(self@, pos, 0);
                if m >= 0 {
                    r == Some(self@[m].1)
                } else {
                    r is None
                }
            }),
    {
        let n = self.entries.len();
        let mut i: usize = 0;
        while i < n
            invariant
                n == self@.len(),
                i <= n,
                first_at(self@, pos, 0) == first_at(self@, pos, i as int),
            decreases n - i,
        {
            if self.entries[i].0 == pos {
                return Some(self.entries[i].1);
            }
            i = i + 1;
        }
        None
    }
}

} // verus!

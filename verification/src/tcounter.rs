//! Tick counter: turns a 16-bit hardware timer plus a software overflow tally
//! into a monotonic tick count.
//!
//! The hardware register and its overflow-pending flag are read by the caller
//! inside a critical section that excludes the overflow interrupt, in the
//! order tally, register, pending flag; the caller hands that snapshot in and
//! this module reconciles the race between the register wrapping and the
//! interrupt running.

use vstd::prelude::*;
use vstd::arithmetic::div_mod::lemma_fundamental_div_mod;

verus! {

/// Number of distinct values of the 16-bit hardware register — the counter
/// range: how many ticks pass between two consecutive overflows, and so how
/// many ticks one step of the overflow tally is worth.
pub const REGISTER_PERIOD: u64 = 65536;

/// The overflow tally as the sampling path must see it: a wraparound whose
/// interrupt is still pending has logically already happened, so it counts as
/// one more overflow.
pub open spec fn effective_tally(tally: u32, pending: bool) -> int {
    tally + if pending {
        1int
    } else {
        0int
    }
}

/// The tick count that a snapshot (tally, raw register, pending flag)
/// combines to: tally times the counter range, plus the register value.
pub open spec fn spec_combine(tally: u32, raw: u16, pending: bool) -> int {
    effective_tally(tally, pending) * (REGISTER_PERIOD as int) + raw
}

/// A snapshot is a faithful picture of the true, unbounded tick count `t`:
/// the register holds `t` modulo its period and the effective tally holds the
/// number of wraparounds so far.
pub open spec fn snapshot_of(tally: u32, raw: u16, pending: bool, t: int) -> bool {
    &&& 0 <= t
    &&& effective_tally(tally, pending) == t / (REGISTER_PERIOD as int)
    &&& raw == t % (REGISTER_PERIOD as int)
}

/// A faithful snapshot combines to the true tick count itself: the sample is
/// glitch-free, also when the register has just wrapped and the overflow
/// interrupt is still pending.
pub proof fn lemma_sample_exact(tally: u32, raw: u16, pending: bool, t: int)
    requires
        snapshot_of(tally, raw, pending, t),
    ensures
        spec_combine(tally, raw, pending) == t,
{
    lemma_fundamental_div_mod(t, REGISTER_PERIOD as int);
}

/// Later snapshots of a counter that is never reset combine to values at
/// least as large as earlier ones, including when the register has just
/// wrapped and the overflow interrupt is still pending.
pub proof fn lemma_sample_monotonic(
    tally1: u32,
    raw1: u16,
    pending1: bool,
    t1: int,
    tally2: u32,
    raw2: u16,
    pending2: bool,
    t2: int,
)
    requires
        snapshot_of(tally1, raw1, pending1, t1),
        snapshot_of(tally2, raw2, pending2, t2),
        t1 <= t2,
    ensures
        spec_combine(tally1, raw1, pending1) <= spec_combine(tally2, raw2, pending2),
{
    lemma_sample_exact(tally1, raw1, pending1, t1);
    lemma_sample_exact(tally2, raw2, pending2, t2);
}

/// State of the free-running tick counter: the overflow tally, incremented
/// once per hardware-timer wraparound by the overflow interrupt handler.
/// The hardware register itself stays outside: `clock_cycles` takes its
/// snapshot as arguments.
pub struct TCounter {
    tally: u32,
}

impl TCounter {
    /// The current overflow tally.
    pub closed spec fn tally(&self) -> u32 {
        self.tally
    }

    /// A freshly started counter: the tally is reset to zero (the hardware
    /// timer is configured by the caller).
    pub fn new() -> (c: TCounter)
        ensures
            c.tally() == 0,
    {
        TCounter { tally: 0 }
    }

    /// The body of the overflow interrupt handler: one more wraparound has
    /// happened. The caller runs this inside the same critical section that
    /// `clock_cycles` snapshots are taken in.
    pub fn overflow_tick(&mut self)
        requires
            old(self).tally() < u32::MAX,
        ensures
            final(self).tally() == old(self).tally() + 1,
    {
        self.tally = self.tally + 1;
    }

    /// Combine a snapshot of (tally, raw register, overflow-pending flag),
    /// all three read inside one critical section in that order, into a
    /// single tick count. A pending overflow is folded in as one extra tally
    /// step, which is what makes the read race-free: by `lemma_sample_exact`
    /// the result is exactly the tick count of the instant the snapshot
    /// pictures.
    pub fn clock_cycles(&self, raw: u16, pending: bool) -> (t: u64)
        ensures
            t == spec_combine(self.tally(), raw, pending),
    {
        let m: u64 = if pending {
            self.tally as u64 + 1
        } else {
            self.tally as u64
        };
        m * REGISTER_PERIOD + raw as u64
    }
}

} // verus!

use vstd::prelude::*;

verus! {

/// Nanoseconds in one second.
pub const NANOS_PER_SEC: u64 = 1_000_000_000;

/// Nanoseconds elapsed from `previous` to `now`; a clock reading that lies
/// before `previous` counts as no time at all.
pub open spec fn elapsed(previous: int, now: int) -> int {
    if now >= previous {
        now - previous
    } else {
        0
    }
}

/// A timestamp in nanoseconds from whole seconds and the nanoseconds past
/// them, saturating at the largest `u64`.
pub fn nanos_from_parts(secs: u64, subsec_nanos: u32) -> (r: u64)
    ensures
        r as int == if secs * NANOS_PER_SEC + subsec_nanos <= u64::MAX {
            secs * NANOS_PER_SEC + subsec_nanos
        } else {
            u64::MAX as int
        },
{
    assert(secs as int * NANOS_PER_SEC as int <= u64::MAX as int * 1_000_000_000) by (nonlinear_arith)
        requires
            secs <= u64::MAX,
    ;
    let total: u128 = secs as u128 * NANOS_PER_SEC as u128 + subsec_nanos as u128;
    if total <= u64::MAX as u128 {
        total as u64
    } else {
        u64::MAX
    }
}

/// Measures the time between frames. Timestamps are nanoseconds read from a
/// monotonic clock.
#[derive(Clone, Copy, Debug)]
pub struct FrameClock {
    pub previous: u64,
}

impl FrameClock {
    /// A clock whose last reading is `now`.
    pub fn new(now: u64) -> (r: FrameClock)
        ensures
            r.previous == now,
    {
        FrameClock { previous: now }
    }

    /// Takes the reading `now`: returns the nanoseconds since the previous
    /// reading and keeps `now` as the previous one.
    pub fn tick(&mut self, now: u64) -> (dt: u64)
        ensures
            dt == elapsed(old(self).previous as int, now as int),
            final(self).previous == now,
    {
        let dt = now.saturating_sub(self.previous);
        self.previous = now;
        dt
    }
}

/// A tick never yields a negative time, and a second tick at the instant of
/// the first yields zero.
pub proof fn lemma_tick_same_instant(previous: u64, now: u64)
    ensures
        elapsed(previous as int, now as int) >= 0,
        elapsed(now as int, now as int) == 0,
{
}

} // verus!

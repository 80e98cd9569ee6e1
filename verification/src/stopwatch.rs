//! The stopwatch: a fixed start instant from which each tick derives the
//! elapsed whole seconds and shows them as `HH:MM:SS`. Nothing is stored
//! between ticks, so the display can never drift or reset while running.

use vstd::prelude::*;
use crate::numfmt::hms_str;
use crate::numfmt::fmt_hms;
use crate::numfmt::lemma_hms_injective;
use crate::tz::unix_now_seconds;

verus! {

/// Elapsed whole seconds between the start and a later reading of the
/// clock. A reading before the start shows as zero, and one further past
/// the start than the counter can hold is clamped.
pub open spec fn elapsed_secs(start: int, now: int) -> int {
    if now <= start {
        0
    } else if now - start > u64::MAX {
        u64::MAX as int
    } else {
        now - start
    }
}

/// The state of a stopwatch: only the instant it started, in whole seconds
/// since the Unix epoch. Elapsed time is derived, never accumulated.
pub struct StopwatchSource {
    start: i64,
}

impl StopwatchSource {
    /// The instant the stopwatch started.
    pub closed spec fn start_time(self) -> i64 {
        self.start
    }

    /// Starts a stopwatch at a given instant.
    pub fn start_at(now: i64) -> (r: StopwatchSource)
        ensures
            r.start_time() == now,
    {
        StopwatchSource { start: now }
    }

    /// Starts a stopwatch at the present moment.
    pub fn start() -> (r: StopwatchSource) {
        StopwatchSource { start: unix_now_seconds() }
    }

    /// The frame for a given reading of the clock: the elapsed time since
    /// the start, as `HH:MM:SS`.
    pub fn frame_at(&self, now: i64) -> (r: String)
        ensures
            r@ == hms_str(elapsed_secs(self.start_time() as int, now as int)),
    {
        let wide: i128 = now as i128 - self.start as i128;
        let elapsed: u64 = if wide <= 0 {
            0
        } else if wide > u64::MAX as i128 {
            u64::MAX
        } else {
            wide as u64
        };
        fmt_hms(elapsed)
    }

    /// One tick: the elapsed time at the present moment. Whatever the
    /// clock returns, the frame shows the elapsed seconds of some reading.
    pub fn tick(&self) -> (r: String)
        ensures
            exists|now: int| r@ == hms_str(#[trigger] elapsed_secs(self.start_time() as int, now)),
    {
        let now = unix_now_seconds();
        let r = self.frame_at(now);
        proof {
            assert(r@ == hms_str(elapsed_secs(self.start_time() as int, now as int)));
        }
        r
    }
}

/// Law: between one reading of the clock and a later one, the elapsed time
/// a running stopwatch displays strictly increases — it never resets — and
/// a reading exactly one second later shows exactly one more second; the
/// displayed frame therefore always changes from tick to tick.
pub proof fn lemma_stopwatch_increases(start: int, n1: int, n2: int)
    requires
        start <= n1 < n2,
        n2 - start <= u64::MAX,
    ensures
        elapsed_secs(start, n1) < elapsed_secs(start, n2),
        n2 == n1 + 1 ==> elapsed_secs(start, n2) == elapsed_secs(start, n1) + 1,
        hms_str(elapsed_secs(start, n1)) != hms_str(elapsed_secs(start, n2)),
{
    lemma_hms_injective(elapsed_secs(start, n1), elapsed_secs(start, n2));
}

} // verus!

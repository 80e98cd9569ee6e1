//! The countdown timer: a remaining-seconds counter that yields one
//! `HH:MM:SS` frame per tick until it reaches zero, then stops. A run
//! started at `n` therefore yields exactly the frames for `n` down to 1;
//! one started at 0 yields none.

use vstd::prelude::*;
use crate::numfmt::hms_str;
use crate::numfmt::fmt_hms;
use crate::numfmt::lemma_hms_injective;
use crate::input::seconds_val;
use crate::input::parse_seconds;

verus! {

/// Law: a countdown never repeats a frame. The frame shown with one count
/// remaining differs from the one shown with any other count remaining, so
/// a run from `n` yields `n` distinct frames.
pub proof fn lemma_timer_frames_distinct(r1: u64, r2: u64)
    requires
        r1 != r2,
    ensures
        hms_str(r1 as int) != hms_str(r2 as int),
{
    lemma_hms_injective(r1 as int, r2 as int);
}

/// The state of a countdown: the whole seconds still to run. The timer is
/// finished exactly when none remain.
pub struct TimerSource {
    remaining: u64,
}

impl TimerSource {
    /// The seconds still to run.
    pub closed spec fn remaining(self) -> u64 {
        self.remaining
    }

    /// Starts a countdown of the given number of seconds.
    pub fn new(seconds: u64) -> (r: TimerSource)
        ensures
            r.remaining() == seconds,
    {
        TimerSource { remaining: seconds }
    }

    /// Starts a countdown from a duration string; input that is not a
    /// plain decimal number counts down from 0, finishing immediately.
    pub fn from_input(s: &str) -> (r: TimerSource)
        ensures
            r.remaining() as int == seconds_val(s@),
    {
        TimerSource { remaining: parse_seconds(s) }
    }

    /// One tick: while seconds remain, the frame showing the remaining
    /// time, counting one second down; once none remain, no frame — the
    /// caller reports the finish instead.
    pub fn tick(&mut self) -> (frame: Option<String>)
        ensures
            old(self).remaining() == 0 ==> frame is None && *final(self) == *old(self),
            old(self).remaining() > 0 ==> (frame matches Some(s) && s@ == hms_str(
                old(self).remaining() as int,
            ) && final(self).remaining() == old(self).remaining() - 1),
    {
        if self.remaining == 0 {
            None
        } else {
            let f = fmt_hms(self.remaining);
            self.remaining = self.remaining - 1;
            Some(f)
        }
    }
}

} // verus!

//! The wall clock: reads the current time in a chosen timezone once per
//! tick, formats it as a 12-hour `hh:mm AM/PM` reading, and asks for a
//! render only when the reading differs from the one last shown. An
//! unknown timezone identifier yields no source at all, so the run loop is
//! never entered for one.

use vstd::prelude::*;
use crate::numfmt::clock_str;
use crate::numfmt::fmt_clock;
use crate::tz::tz_known;
use crate::tz::parse_timezone;
use crate::tz::now_hour_minute;

verus! {

/// A string that some hour and minute of the day reads as.
pub open spec fn is_clock_display(s: Seq<char>) -> bool {
    exists|h: int, m: int| 0 <= h < 24 && 0 <= m < 60 && s == #[trigger] clock_str(h, m)
}

/// The state of a running clock: its timezone and the reading last shown,
/// none before the first tick.
pub struct ClockSource {
    tz: chrono_tz::Tz,
    last: Option<String>,
}

impl ClockSource {
    /// The reading last shown, as its characters.
    pub closed spec fn last_display(self) -> Option<Seq<char>> {
        match self.last {
            Some(s) => Some(s@),
            None => None,
        }
    }

    /// The timezone the clock runs in.
    pub closed spec fn timezone(self) -> chrono_tz::Tz {
        self.tz
    }

    /// Starts a clock for a timezone identifier. A source comes back
    /// exactly when the identifier is a known timezone; for any other
    /// string there is nothing to run and the caller reports the error.
    pub fn new(name: &str) -> (r: Option<ClockSource>)
        ensures
            r is Some <==> tz_known(name@),
            match r {
                Some(c) => c.last_display() is None,
                None => true,
            },
    {
        match parse_timezone(name) {
            Some(tz) => Some(ClockSource { tz, last: None }),
            None => None,
        }
    }

    /// One tick at a given reading of the clock: formats the reading and
    /// asks for a render exactly when the formatted string differs from
    /// the one last shown, which it then becomes.
    pub fn tick_at(&mut self, hour: u8, minute: u8) -> (render: Option<String>)
        requires
            hour < 24,
            minute < 60,
        ensures
            ({
                let disp = clock_str(hour as int, minute as int);
                match render {
                    Some(s) => s@ == disp && old(self).last_display() != Some(disp)
                        && final(self).last_display() == Some(disp),
                    None => old(self).last_display() == Some(disp) && *final(self) == *old(self),
                }
            }),
            final(self).timezone() == old(self).timezone(),
    {
        let disp = fmt_clock(hour, minute);
        let same = match &self.last {
            Some(prev) => *prev == disp,
            None => false,
        };
        if same {
            None
        } else {
            self.last = Some(disp.clone());
            Some(disp)
        }
    }

    /// One tick at the present moment. Whatever the clock returns: a frame
    /// comes back only when its reading differs from the one last shown,
    /// and the shown reading never changes without a frame.
    pub fn tick(&mut self) -> (render: Option<String>)
        ensures
            match render {
                Some(s) => is_clock_display(s@) && old(self).last_display() != Some(s@)
                    && final(self).last_display() == Some(s@),
                None => *final(self) == *old(self),
            },
            final(self).timezone() == old(self).timezone(),
    {
        let (hour, minute) = now_hour_minute(&self.tz);
        let render = self.tick_at(hour, minute);
        proof {
            if render is Some {
                assert(is_clock_display(clock_str(hour as int, minute as int)));
            }
        }
        render
    }
}

} // verus!

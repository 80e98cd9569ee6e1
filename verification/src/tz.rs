//! The library's only window onto the system clock and the timezone
//! database: three thin wrappers over `chrono` and `chrono-tz`. Everything
//! that can be computed from their plain results — formatting, change
//! detection, elapsed time — is verified elsewhere.

use vstd::prelude::*;
use chrono::Timelike;
use chrono_tz::Tz;

verus! {

#[verifier::external_type_specification]
#[verifier::external_body]
pub struct ExTz(Tz);

/// Whether the timezone table of chrono-tz knows an identifier; parsing is
/// an exact lookup in a fixed table, so this depends on the string alone.
pub uninterp spec fn tz_known(name: Seq<char>) -> bool;

/// Relies on `chrono_tz::Tz`'s `FromStr`: a lookup of the identifier in
/// the crate's fixed map of timezone names, `Ok` exactly for the names the
/// table holds.
#[verifier::external_body]
pub(crate) fn parse_timezone(name: &str) -> (r: Option<Tz>)
    ensures
        r is Some <==> tz_known(name@),
{
    name.parse::<Tz>().ok()
}

/// Relies on `chrono::Utc::now` and `chrono::Timelike`: `hour` is
/// documented to lie in 0..24 and `minute` in 0..60. Nothing more can be
/// promised of a reading of the clock.
#[verifier::external_body]
pub(crate) fn now_hour_minute(tz: &Tz) -> (r: (u8, u8))
    ensures
        r.0 < 24,
        r.1 < 60,
{
    let t = chrono::Utc::now().with_timezone(tz);
    (t.hour() as u8, t.minute() as u8)
}

/// Relies on `chrono::Utc::now` and `DateTime::timestamp`: the current
/// time as whole seconds since the Unix epoch. Two readings need not be
/// related, so nothing is promised of the value.
#[verifier::external_body]
pub(crate) fn unix_now_seconds() -> i64 {
    chrono::Utc::now().timestamp()
}

} // verus!

//! The wall clock, and how long waits are written for people.

use vstd::prelude::*;
use crate::text::digits_of;

verus! {

/// The last second that chrono can represent: 262142-12-31 23:59:59 UTC, as seconds since
/// the epoch (`DateTime::<Utc>::MAX_UTC`, whose date is `NaiveDate::MAX`).
pub const CLOCK_MAX: i64 = 8_210_266_876_799;

/// Reads the system clock with `chrono::Utc::now()` and returns its `timestamp()`: the
/// number of non-leap seconds since 1970-01-01 00:00:00 UTC. `Utc::now` panics rather than
/// return a time before the epoch or one past the dates `DateTime::from_timestamp`
/// accepts, so a returned reading lies in `0..=CLOCK_MAX`. Which reading it is depends on
/// the machine's clock, and is not stated.
#[verifier::external_body]
pub(crate) fn now_timestamp() -> (t: i64)
    ensures
        0 <= t <= CLOCK_MAX,
{
    chrono::Utc::now().timestamp()
}

/// One part of a written duration: `value` followed by `unit`, or nothing when `value` is 0.
pub open spec fn duration_part(value: nat, unit: Seq<char>) -> Seq<char> {
    if value > 0 {
        digits_of(value) + unit
    } else {
        Seq::empty()
    }
}

/// A part whose unit takes a plural `s` when `value` is above 1.
pub open spec fn duration_part_plural(value: nat, unit: Seq<char>) -> Seq<char> {
    if value > 1 {
        digits_of(value) + unit + seq!['s']
    } else {
        duration_part(value, unit)
    }
}

/// The non-empty parts, separated by single spaces.
pub open spec fn join_parts(parts: Seq<Seq<char>>) -> Seq<char>
    decreases parts.len(),
{
    if parts.len() == 0 {
        Seq::empty()
    } else {
        let prev = join_parts(parts.drop_last());
        let part = parts.last();
        if part.len() == 0 {
            prev
        } else if prev.len() == 0 {
            part
        } else {
            prev + seq![' '] + part
        }
    }
}

/// How humantime writes a span of `secs` whole seconds (`humantime::format_duration`, which
/// `humantime::Duration`'s `Display` uses): `0s` for zero; otherwise years of 365.25 days,
/// months of 30.44 days, days, hours, minutes and seconds, each left out when it is 0,
/// separated by spaces, e.g. `2h 37m` for 9420 seconds and `1day 3s` for 86403.
pub open spec fn humantime_text(secs: u64) -> Seq<char> {
    if secs == 0 {
        seq!['0', 's']
    } else {
        let years = secs / 31_557_600;
        let ydays = secs % 31_557_600;
        let months = ydays / 2_630_016;
        let mdays = ydays % 2_630_016;
        let days = mdays / 86400;
        let day_secs = mdays % 86400;
        let hours = day_secs / 3600;
        let minutes = day_secs % 3600 / 60;
        let seconds = day_secs % 60;
        join_parts(
            seq![
                duration_part_plural(years as nat, seq!['y', 'e', 'a', 'r']),
                duration_part_plural(months as nat, seq!['m', 'o', 'n', 't', 'h']),
                duration_part_plural(days as nat, seq!['d', 'a', 'y']),
                duration_part(hours as nat, seq!['h']),
                duration_part(minutes as nat, seq!['m']),
                duration_part(seconds as nat, seq!['s']),
            ],
        )
    }
}

/// Writes a span of `secs` seconds the way humantime does: calls
/// `humantime::Duration::from(std::time::Duration::new(secs, 0)).to_string()`. With no
/// fraction of a second, its milli-, micro- and nanosecond parts are all 0 and left out.
#[verifier::external_body]
pub(crate) fn format_duration_secs(secs: u64) -> (text: String)
    ensures
        text@ == humantime_text(secs),
{
    humantime::Duration::from(std::time::Duration::new(secs, 0)).to_string()
}

} // verus!

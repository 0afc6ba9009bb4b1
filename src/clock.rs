//! Times of day, as the log stamps its lines.

use vstd::prelude::*;

verus! {

/// A time of day.
#[derive(Debug, Clone, Copy, PartialEq, Eq, Structural)]
pub struct ClockTime {
    pub hour: i8,
    pub minute: i8,
    pub second: i8,
    pub subsec_nanosecond: i32,
}

/// The time of day that `jiff::civil::Time` reads from a text, as hour,
/// minute, second and nanoseconds; `None` where it reads none.
pub uninterp spec fn civil_time_of(s: Seq<char>) -> Option<(i8, i8, i8, i32)>;

pub open spec fn clock_view(t: Option<ClockTime>) -> Option<(i8, i8, i8, i32)> {
    match t {
        Some(c) => Some((c.hour, c.minute, c.second, c.subsec_nanosecond)),
        None => None,
    }
}

/// Relies on `jiff::civil::Time`'s `FromStr` (jiff's ISO 8601 time parser):
/// whether a text is a time of day, and which, depends on the text alone.
#[verifier::external_body]
pub(crate) fn parse_time(s: &str) -> (r: Option<ClockTime>)
    ensures
        clock_view(r) == civil_time_of(s@),
{
    match s.parse::<jiff::civil::Time>() {
        Ok(t) => Some(
            ClockTime {
                hour: t.hour(),
                minute: t.minute(),
                second: t.second(),
                subsec_nanosecond: t.subsec_nanosecond(),
            },
        ),
        Err(_) => None,
    }
}

} // verus!

//! Durations and the wall clock.

use core::time::Duration;
use vstd::prelude::*;

verus! {

/// The duration of `secs` whole seconds.
pub uninterp spec fn duration_of_secs(secs: u64) -> Duration;

/// The duration of `millis` milliseconds.
pub uninterp spec fn duration_of_millis(millis: u64) -> Duration;

/// Relies on `Duration::from_secs`: a duration of `secs` seconds, which
/// depends on `secs` alone (it never panics).
pub assume_specification[ core::time::Duration::from_secs ](secs: u64) -> (r: Duration)
    ensures
        r == duration_of_secs(secs),
;

/// Relies on `Duration::from_millis`: a duration of `millis` milliseconds,
/// which depends on `millis` alone (it never panics).
pub assume_specification[ core::time::Duration::from_millis ](millis: u64) -> (r: Duration)
    ensures
        r == duration_of_millis(millis),
;

/// The text of a duration in `Debug` format.
pub uninterp spec fn duration_debug_text(d: Duration) -> Seq<char>;

/// Relies on `Duration`'s `Debug` format (such as `1.5s` or `250ms`), which
/// depends on the duration alone.
#[verifier::external_body]
pub(crate) fn duration_text(d: &Duration) -> (r: String)
    ensures
        r@ == duration_debug_text(*d),
{
    format!("{:?}", d)
}

/// Relies on `SystemTime::now`: the wall clock, as whole milliseconds since
/// the Unix epoch (0 for a clock set before it). Nothing is known of the value.
#[verifier::external_body]
pub(crate) fn unix_millis_now() -> u64 {
    std::time::SystemTime::now().duration_since(std::time::UNIX_EPOCH).map_or(0, |d| d.as_millis() as u64)
}

} // verus!

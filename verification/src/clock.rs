//! The system clock, as far as the library reads it.
//!
//! Readings of the clock are values of the standard library that Verus does
//! not look into. The functions here hand them on; nothing is claimed of what
//! the clock shows, and the time between two readings goes by a name.

use vstd::prelude::*;

verus! {

#[verifier::external_type_specification]
#[verifier::external_body]
pub struct ExSystemTime(std::time::SystemTime);

/// `SystemTime::clone` of the standard library: a copy of the reading.
pub assume_specification[ <std::time::SystemTime as Clone>::clone ](
    t: &std::time::SystemTime,
) -> (r: std::time::SystemTime)
    ensures
        r == *t,
;

/// `Duration::clone` of the standard library: a copy of the duration.
pub assume_specification[ <std::time::Duration as Clone>::clone ](
    d: &std::time::Duration,
) -> (r: std::time::Duration)
    ensures
        r == *d,
;

/// `SystemTime::now` of the standard library: the reading of the system
/// clock. Nothing is claimed of it.
#[verifier::external_body]
pub(crate) fn system_time_now() -> (r: std::time::SystemTime) {
    std::time::SystemTime::now()
}

/// `UNIX_EPOCH` of the standard library: the reading that stands for
/// 1970-01-01 00:00:00 UTC.
#[verifier::external_body]
pub(crate) fn unix_epoch() -> (r: std::time::SystemTime) {
    std::time::UNIX_EPOCH
}

/// The time from the reading `earlier` to the reading `later`; none where
/// `later` lies before `earlier`.
pub uninterp spec fn time_from(
    earlier: std::time::SystemTime,
    later: std::time::SystemTime,
) -> Option<std::time::Duration>;

/// `SystemTime::duration_since` of the standard library: the time from
/// `earlier` to `later`, absent where `later` lies before `earlier`. It
/// depends on the two readings alone; the contract gives it its name and
/// claims nothing more of it.
#[verifier::external_body]
pub(crate) fn time_between(earlier: &std::time::SystemTime, later: &std::time::SystemTime) -> (r:
    Option<std::time::Duration>)
    ensures
        r == time_from(*earlier, *later),
{
    later.duration_since(*earlier).ok()
}

/// `Duration::as_secs` of the standard library: the whole seconds that the
/// duration holds. Nothing is claimed of it.
#[verifier::external_body]
pub(crate) fn whole_seconds(d: &std::time::Duration) -> (r: u64) {
    d.as_secs()
}

#[verifier::external_type_specification]
#[verifier::external_body]
pub struct ExInstant(std::time::Instant);

/// `Instant::now` of the standard library: the reading of the clock that
/// never goes backwards. Nothing is claimed of it.
#[verifier::external_body]
pub(crate) fn instant_now() -> (r: std::time::Instant) {
    std::time::Instant::now()
}

/// `Instant::elapsed` of the standard library: the time since the reading.
/// Nothing is claimed of it.
#[verifier::external_body]
pub(crate) fn elapsed_since(start: &std::time::Instant) -> (r: std::time::Duration) {
    start.elapsed()
}

/// The time of a reading of the system clock in the notation of RFC 3339,
/// for a time given in whole seconds since 1970; none for a time that the
/// calendar does not reach.
pub uninterp spec fn rfc3339_utc(secs: int) -> Option<Seq<char>>;

/// `DateTime::from_timestamp` of the crate chrono, then `to_rfc3339` of the
/// time it gives: the time `secs` seconds after 1970-01-01 00:00:00 UTC in
/// the notation of RFC 3339, nothing where chrono has no such time. The
/// contract gives the result its name and claims nothing more of it.
#[verifier::external_body]
pub(crate) fn format_rfc3339(secs: i64) -> (r: Option<String>)
    ensures
        match r {
            Some(text) => rfc3339_utc(secs as int) == Some(text@),
            None => rfc3339_utc(secs as int) is None,
        },
{
    chrono::DateTime::from_timestamp(secs, 0).map(|time| time.to_rfc3339())
}

} // verus!

//! Instants as whole seconds since the Unix epoch, and the two calls into the
//! `time` crate that the token lifecycle needs.

use vstd::prelude::*;

verus! {

/// Earliest instant the calendar of the `time` crate represents: midnight
/// UTC of 1 January of the year -9999.
pub const MIN_TIMESTAMP: i64 = -377_705_116_800;

/// Latest instant the calendar of the `time` crate represents: the last
/// second of 31 December 9999 UTC.
pub const MAX_TIMESTAMP: i64 = 253_402_300_799;

/// Whether `t` is an instant that the calendar can represent.
pub open spec fn representable(t: int) -> bool {
    MIN_TIMESTAMP <= t <= MAX_TIMESTAMP
}

/// The instant `seconds` after `now`, where both can be represented.
pub open spec fn instant_after(now: int, seconds: int) -> Option<int> {
    if representable(now) && representable(now + seconds) {
        Some(now + seconds)
    } else {
        None
    }
}

/// The current UTC time in whole seconds since the Unix epoch.
///
/// Trusted: calls `time::OffsetDateTime::now_utc` and reads its
/// `unix_timestamp`. The contract claims only that the value lies in the
/// range of instants that an `OffsetDateTime` can hold; which instant it is
/// depends on the clock.
#[verifier::external_body]
pub(crate) fn now_timestamp() -> (now: i64)
    ensures
        representable(now as int),
{
    time::OffsetDateTime::now_utc().unix_timestamp()
}

/// The instant a number of seconds after the instant `now`.
///
/// Trusted: calls `time::OffsetDateTime::checked_add` on the instant that
/// `time::OffsetDateTime::from_unix_timestamp` makes of `now`, and reads the
/// `unix_timestamp` of what comes back. The contract claims that the sum
/// comes back exactly when `now` and the sum are both between
/// `MIN_TIMESTAMP` and `MAX_TIMESTAMP`, the bounds of the crate's calendar
/// without its `large-dates` feature, and `None` otherwise.
#[verifier::external_body]
pub(crate) fn timestamp_after(now: i64, seconds: i64) -> (later: Option<i64>)
    requires
        0 <= seconds,
    ensures
        later.is_some() == instant_after(now as int, seconds as int).is_some(),
        later matches Some(t) ==> instant_after(now as int, seconds as int) == Some(t as int),
{
    match time::OffsetDateTime::from_unix_timestamp(now) {
        Ok(start) => start.checked_add(time::Duration::seconds(seconds)).map(|t| t.unix_timestamp()),
        Err(_) => None,
    }
}

} // verus!

//! Wall-clock instants as nanoseconds since the Unix epoch.
use vstd::prelude::*;

verus! {

/// Nanoseconds in one second.
pub const NANOS_PER_SECOND: i128 = 1_000_000_000;

/// Bound on the magnitude of an instant (2^90 ns, about 39 billion years):
/// every date the calendar type can represent lies well inside it.
pub const TIME_BOUND: i128 = 1_237_940_039_285_380_274_899_124_224;

/// An instant that lies within the representable range of instants.
pub open spec fn valid_time(t: i128) -> bool {
    -TIME_BOUND <= t <= TIME_BOUND
}

/// Whether `time::OffsetDateTime` can represent the instant `t` (in Unix
/// nanoseconds). Its bounds depend on the calendar range that the `time`
/// crate was built with.
pub uninterp spec fn representable_nanos(t: i128) -> bool;

/// Relies on `time::OffsetDateTime::now_utc` and `unix_timestamp_nanos`: the
/// current instant, which is a representable date and so lies within the
/// bound above.
#[verifier::external_body]
pub(crate) fn now_unix_nanos() -> (r: i128)
    ensures
        valid_time(r),
        representable_nanos(r),
{
    time::OffsetDateTime::now_utc().unix_timestamp_nanos()
}

/// Relies on `time::OffsetDateTime::from_unix_timestamp_nanos`: `Ok` exactly
/// when the instant lies in the calendar range of the `time` crate.
#[verifier::external_body]
pub(crate) fn is_representable(t: i128) -> (r: bool)
    ensures
        r == representable_nanos(t),
{
    time::OffsetDateTime::from_unix_timestamp_nanos(t).is_ok()
}

/// The non-negative distance `to - from`, computed without overflow.
pub fn elapsed_nanos(from: i128, to: i128) -> (r: u128)
    requires
        from <= to,
    ensures
        r == to - from,
{
    if from >= 0 || to < 0 {
        (to - from) as u128
    } else {
        let back: i128 = -(from + 1);
        to as u128 + back as u128 + 1
    }
}

/// Whether strictly more than `span` nanoseconds lie between `from` and `to`.
pub fn longer_than(from: i128, to: i128, span: u128) -> (r: bool)
    ensures
        r == (to - from > span),
{
    if to <= from {
        false
    } else {
        elapsed_nanos(from, to) > span
    }
}

/// Whether strictly fewer than `span` nanoseconds lie between `from` and `to`
/// (an instant `to` before `from` counts as no time at all having passed).
pub fn shorter_than(from: i128, to: i128, span: u128) -> (r: bool)
    ensures
        r == (to - from < span),
{
    if to <= from {
        to < from || span > 0
    } else {
        elapsed_nanos(from, to) < span
    }
}

} // verus!

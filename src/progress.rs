//! Progress telemetry: percent, rate and time to completion from raw counters.
//!
//! Ratios are kept exact: the percentage is `current / total` and the rate is
//! `current` items per `elapsed` nanoseconds. The estimate of the remaining
//! time is the floor of `remaining / rate`, in whole seconds.
use vstd::prelude::*;
use crate::clock::{elapsed_nanos, valid_time, NANOS_PER_SECOND, TIME_BOUND};

verus! {

/// Progress in numbers, present only when it can be computed.
#[derive(Clone, Debug, PartialEq, Eq, Structural)]
pub struct ProgressDetails {
    /// The items processed so far.
    pub current: u32,
    /// The items to process in all.
    pub total: u32,
    /// Nanoseconds since the run started (negative if the clock went back).
    pub elapsed: i128,
    /// The estimated remaining time, in whole seconds.
    pub estimated_seconds_remaining: u64,
    /// The estimated instant of completion, in Unix nanoseconds.
    pub estimated_completion: i128,
}

/// The current message of a run and, when available, its progress in numbers.
#[derive(Clone, Debug, PartialEq, Eq)]
pub struct Progress {
    pub message: Option<String>,
    pub details: Option<ProgressDetails>,
}

impl Default for Progress {
    fn default() -> (r: Progress)
        ensures
            r.message.is_none(),
            r.details.is_none(),
    {
        Progress { message: None, details: None }
    }
}

/// A stored counter read as an unsigned count (a negative value wraps, as a
/// two's-complement reinterpretation does).
pub open spec fn counter(c: i32) -> int {
    if c < 0 {
        c + 0x1_0000_0000
    } else {
        c as int
    }
}

/// The estimate of the remaining seconds: the floor of `remaining / rate`
/// with `rate = current / elapsed`, capped at the largest `u64`. With no
/// time elapsed (or a clock that went back) the rate is unbounded or
/// undefined and the estimate is zero; with nothing done yet it is unbounded.
pub open spec fn estimate_secs(current: int, total: int, elapsed: int) -> int {
    if elapsed <= 0 {
        0
    } else if current == 0 {
        u64::MAX as int
    } else {
        let q = (total - current) * elapsed / (current * NANOS_PER_SECOND);
        if q > u64::MAX { u64::MAX as int } else { q }
    }
}

/// Whether the counters allow progress details: both present, the current
/// count not past the total, and a non-zero total.
pub open spec fn has_details(current: Option<i32>, total: Option<i32>) -> bool {
    &&& current.is_some()
    &&& total.is_some()
    &&& counter(current.unwrap()) <= counter(total.unwrap())
    &&& counter(total.unwrap()) > 0
}

/// The details computed from the counters, for a run started at `start`
/// and observed at `now`.
pub open spec fn details_of(
    start: i128,
    now: i128,
    current: Option<i32>,
    total: Option<i32>,
) -> Option<ProgressDetails> {
    if has_details(current, total) {
        let c = counter(current.unwrap());
        let t = counter(total.unwrap());
        let est = estimate_secs(c, t, now - start);
        Some(ProgressDetails {
            current: c as u32,
            total: t as u32,
            elapsed: (now - start) as i128,
            estimated_seconds_remaining: est as u64,
            estimated_completion: (now + est * NANOS_PER_SECOND) as i128,
        })
    } else {
        None
    }
}

fn read_counter(c: i32) -> (r: u32)
    ensures
        r == counter(c),
{
    if c < 0 {
        (c as i64 + 0x1_0000_0000i64) as u32
    } else {
        c as u32
    }
}

fn estimate(current: u32, total: u32, start: i128, now: i128) -> (r: u64)
    requires
        valid_time(start),
        valid_time(now),
        current <= total,
    ensures
        r == estimate_secs(current as int, total as int, now - start),
{
    if now <= start {
        0
    } else if current == 0 {
        u64::MAX
    } else {
        let el = elapsed_nanos(start, now);
        let rem = (total - current) as u128;
        assert(el <= 2 * TIME_BOUND);
        assert(rem * el <= 0xffff_ffffu128 * (2 * TIME_BOUND)) by (nonlinear_arith)
            requires
                rem <= 0xffff_ffffu128,
                el <= 2 * TIME_BOUND,
        ;
        let num = rem * el;
        let den = current as u128 * 1_000_000_000u128;
        let q = num / den;
        if q > u64::MAX as u128 {
            u64::MAX
        } else {
            q as u64
        }
    }
}

/// The progress details, or `None` where the counters do not allow them.
pub fn into_progress_details(
    start: i128,
    now: i128,
    current: Option<i32>,
    total: Option<i32>,
) -> (r: Option<ProgressDetails>)
    requires
        valid_time(start),
        valid_time(now),
    ensures
        r == details_of(start, now, current, total),
        r.is_none() <==> !has_details(current, total),
{
    let c = match current {
        Some(c) => read_counter(c),
        None => return None,
    };
    let t = match total {
        Some(t) => read_counter(t),
        None => return None,
    };
    if c > t || t == 0 {
        return None;
    }
    let est = estimate(c, t, start, now);
    let completion = now + est as i128 * NANOS_PER_SECOND;
    Some(ProgressDetails {
        current: c,
        total: t,
        elapsed: now - start,
        estimated_seconds_remaining: est,
        estimated_completion: completion,
    })
}

/// The progress of a run started at `start` and observed at `now`: the
/// message passes through unchanged, the details as above.
pub fn into_progress(
    start: i128,
    now: i128,
    current: Option<i32>,
    total: Option<i32>,
    message: Option<String>,
) -> (r: Progress)
    requires
        valid_time(start),
        valid_time(now),
    ensures
        r.message == message,
        r.details == details_of(start, now, current, total),
{
    Progress { message, details: into_progress_details(start, now, current, total) }
}

} // verus!

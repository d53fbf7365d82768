//! What the library knows of `std::time::Duration`: its whole seconds and
//! its sub-second nanoseconds, and from them its length in nanoseconds.

use std::time::Duration;
use vstd::prelude::*;

verus! {

/// The whole seconds that a duration holds.
pub uninterp spec fn whole_secs(d: Duration) -> u64;

/// The part of a duration below one second, in nanoseconds.
pub uninterp spec fn subsec_part(d: Duration) -> u32;

/// `Duration::as_secs`: the number of whole seconds of the duration.
pub assume_specification[ Duration::as_secs ](d: &Duration) -> (s: u64)
    ensures
        s == whole_secs(*d),
;

/// `Duration::subsec_nanos`: the fractional part of the duration in
/// nanoseconds, which is always less than one thousand million.
pub assume_specification[ Duration::subsec_nanos ](d: &Duration) -> (n: u32)
    ensures
        n == subsec_part(*d),
        n < 1_000_000_000,
;

/// `Duration::from_millis`: the duration of the given number of
/// milliseconds, split into whole seconds and the rest in nanoseconds.
pub assume_specification[ Duration::from_millis ](millis: u64) -> (d: Duration)
    ensures
        whole_secs(d) == millis / 1000,
        subsec_part(d) == (millis % 1000) * 1_000_000,
;

/// Nanoseconds in one second.
pub const NANOS_PER_SEC: u128 = 1_000_000_000;

/// Nanoseconds in one millisecond.
pub const NANOS_PER_MILLI: u128 = 1_000_000;

/// An upper bound, never reached, of the length of a duration in nanoseconds.
pub const NANOS_LIMIT: u128 = 18_446_744_073_709_551_616_000_000_000;

/// The length of a duration in nanoseconds.
pub open spec fn nanos(d: Duration) -> nat {
    (whole_secs(d) * 1_000_000_000 + subsec_part(d)) as nat
}

/// The length of an optional duration in nanoseconds, zero where there is none.
pub open spec fn nanos_or_zero(d: Option<Duration>) -> nat {
    match d {
        Some(d) => nanos(d),
        None => 0,
    }
}

/// Computes the length of a duration in nanoseconds.
pub fn nanos_of(d: &Duration) -> (n: u128)
    ensures
        n == nanos(*d),
        n < NANOS_LIMIT,
{
    let secs: u64 = d.as_secs();
    let rest: u32 = d.subsec_nanos();
    let whole: u128 = (secs as u128) * NANOS_PER_SEC;
    whole + (rest as u128)
}

/// Computes the length of an optional duration in nanoseconds.
pub fn nanos_of_or_zero(d: &Option<Duration>) -> (n: u128)
    ensures
        n == nanos_or_zero(*d),
        n < NANOS_LIMIT,
{
    match d {
        Some(d) => nanos_of(d),
        None => 0,
    }
}

/// A duration of whole milliseconds is that many million nanoseconds long.
pub fn duration_of_millis(ms: u64) -> (d: Duration)
    ensures
        nanos(d) == ms * NANOS_PER_MILLI,
{
    let d = Duration::from_millis(ms);
    proof {
        let q = (ms / 1000) as int;
        let r = (ms % 1000) as int;
        assert(ms == q * 1000 + r);
        assert(r * 1_000_000 < 1_000_000_000);
        assert(q * 1_000_000_000 + r * 1_000_000 == (q * 1000 + r) * 1_000_000) by (nonlinear_arith);
    }
    d
}

} // verus!

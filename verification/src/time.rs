//! Time as plain numbers: a moment is a number of nanoseconds since some fixed
//! origin, a span a number of nanoseconds.

use vstd::prelude::*;

verus! {

pub const NANOS_PER_MILLI: u64 = 1_000_000;

pub const NANOS_PER_MICRO: u64 = 1_000;

/// Span between two moments; zero where the second lies before the first.
pub open spec fn span_since(now: u64, start: u64) -> u64 {
    if now >= start {
        (now - start) as u64
    } else {
        0
    }
}

pub fn elapsed(now: u64, start: u64) -> (span: u64)
    ensures
        span == span_since(now, start),
{
    if now >= start {
        now - start
    } else {
        0
    }
}

} // verus!

//! Counters that wrap or saturate.

use vstd::prelude::*;

verus! {

/// The number after `n`, 0 after the greatest.
pub open spec fn wrapped_next(n: u64) -> u64 {
    if n == u64::MAX {
        0
    } else {
        (n + 1) as u64
    }
}

/// The number after `n`, 0 after the greatest.
pub fn wrapping_next(n: u64) -> (r: u64)
    ensures
        r == wrapped_next(n),
{
    if n == u64::MAX {
        0
    } else {
        n + 1
    }
}

/// The number after `n`, or the greatest number.
pub open spec fn saturated_next(n: u64) -> u64 {
    if n == u64::MAX {
        n
    } else {
        (n + 1) as u64
    }
}

/// The number after `n`, or the greatest number.
pub fn saturating_next(n: u64) -> (r: u64)
    ensures
        r == saturated_next(n),
{
    if n == u64::MAX {
        n
    } else {
        n + 1
    }
}

/// What is left of `a` once `b` is taken away, 0 at least.
pub open spec fn minus(a: u64, b: u64) -> u64 {
    if a > b {
        (a - b) as u64
    } else {
        0
    }
}

/// Counters go up by one and lose nothing until they are full: then one starts over and the other
/// stays. A difference is that of the two numbers, or 0 where it would be negative.
pub proof fn law_counters_go_up_by_one(n: u64, m: u64)
    ensures
        n < u64::MAX ==> wrapped_next(n) == n + 1 && saturated_next(n) == n + 1,
        wrapped_next(u64::MAX) == 0,
        saturated_next(u64::MAX) == u64::MAX,
        n <= m ==> minus(m, n) + n == m,
        n >= m ==> minus(m, n) == 0,
{
}

} // verus!

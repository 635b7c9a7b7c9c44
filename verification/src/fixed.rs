//! Fixed-point scales and the clamping arithmetic built on them.
use vstd::prelude::*;

verus! {

/// The integer that stands for a need of `1.0`.
pub const NEED_MAX: i64 = 10_000_000;

/// The integer that stands for a ratio of `1.0` in thousandths.
pub const PERMILLE: i64 = 1_000;

/// How many need units one thousandth is worth.
pub const NEED_PER_PERMILLE: i64 = 10_000;

/// The integer that stands for one unit of money.
pub const MONEY_SCALE: i64 = 100;

/// The integer that stands for one office unit of length.
pub const POSITION_SCALE: i64 = 10;

/// Simulation ticks in one second.
pub const TICKS_PER_SECOND: u64 = 60;

/// The need closest to `v` within `[0, NEED_MAX]`.
pub open spec fn clamp_need(v: int) -> int {
    if v < 0 {
        0
    } else if v > NEED_MAX {
        NEED_MAX as int
    } else {
        v
    }
}

/// The `i64` closest to `v`.
pub open spec fn saturate(v: int) -> int {
    if v < i64::MIN {
        i64::MIN as int
    } else if v > i64::MAX {
        i64::MAX as int
    } else {
        v
    }
}

/// Whether `v` is a need value.
pub open spec fn is_need(v: int) -> bool {
    0 <= v <= NEED_MAX
}

/// Adds `delta` to `need` and clamps the sum to `[0, NEED_MAX]`.
pub fn shift_need(need: i64, delta: i64) -> (r: i64)
    ensures
        r == clamp_need(need + delta),
{
    match need.checked_add(delta) {
        Some(sum) => if sum < 0 {
            0
        } else if sum > NEED_MAX {
            NEED_MAX
        } else {
            sum
        },
        None => if need < 0 {
            0
        } else {
            NEED_MAX
        },
    }
}

/// Adds two amounts, stopping at the ends of `i64`.
pub fn saturating_sum(a: i64, b: i64) -> (r: i64)
    ensures
        r == saturate(a + b),
{
    match a.checked_add(b) {
        Some(sum) => sum,
        None => if a < 0 {
            i64::MIN
        } else {
            i64::MAX
        },
    }
}

/// Subtracts one amount from another, stopping at the ends of `i64`.
pub fn saturating_difference(a: i64, b: i64) -> (r: i64)
    ensures
        r == saturate(a - b),
{
    match a.checked_sub(b) {
        Some(difference) => difference,
        None => if a < 0 {
            i64::MIN
        } else {
            i64::MAX
        },
    }
}

/// The time that passed from `start` to `now`, zero when the clock ran backwards.
pub open spec fn elapsed(now: int, start: int) -> int {
    if now >= start {
        now - start
    } else {
        0
    }
}

/// Computes [`elapsed`].
pub fn elapsed_since(now: u64, start: u64) -> (r: u64)
    ensures
        r == elapsed(now as int, start as int),
{
    if now >= start {
        now - start
    } else {
        0
    }
}

} // verus!

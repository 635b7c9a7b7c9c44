//! The one source of chance: a uniform draw from a half-open range.
use vstd::prelude::*;

verus! {

/// The largest upper bound for which a draw is known to stay inside its range.
pub const RANDOM_LIMIT: u32 = 0x20_0000;

/// Calls `macroquad::rand::gen_range`, the generator of quad-rand behind
/// macroquad's `rand` module.
///
/// That function scales a 32-bit random word into `[low, high)` in `f64` and
/// truncates. While `high` is at most 2^21 every intermediate value is exact,
/// so the draw lies in the range; nothing else is claimed of it, and two draws
/// from one range may differ.
#[verifier::external_body]
fn gen_range(low: u32, high: u32) -> (r: u32)
    requires
        low < high <= RANDOM_LIMIT,
    ensures
        low <= r < high,
{
    macroquad::rand::gen_range(low, high)
}

/// Draws an integer from `[low, high)`; `None` when the range is empty or
/// reaches beyond [`RANDOM_LIMIT`].
pub fn draw_between(low: u32, high: u32) -> (r: Option<u32>)
    ensures
        r is Some <==> low < high <= RANDOM_LIMIT,
        r matches Some(v) ==> low <= v < high,
{
    if low < high && high <= RANDOM_LIMIT {
        Some(gen_range(low, high))
    } else {
        None
    }
}

/// Draws an index into a collection of `len` items; `None` when the collection
/// is empty or longer than [`RANDOM_LIMIT`].
pub fn draw_index(len: usize) -> (r: Option<usize>)
    ensures
        r is Some <==> 0 < len <= RANDOM_LIMIT,
        r matches Some(i) ==> i < len,
{
    if 0 < len && len <= RANDOM_LIMIT as usize {
        let i: u32 = gen_range(0, len as u32);
        Some(i as usize)
    } else {
        None
    }
}

} // verus!

//! Random numbers from the thread-local generator of `rand`.

use rand::Rng;
use vstd::prelude::*;

verus! {

/// Calls `rand::thread_rng().gen_range(0..upper)`: a number drawn by chance
/// from `0..upper`. Which one comes back is left open; only the range is
/// stated. `gen_range` panics on an empty range, so `upper` must be positive.
#[verifier::external_body]
pub(crate) fn random_below(upper: usize) -> (res: usize)
    requires
        upper > 0,
    ensures
        res < upper,
{
    rand::thread_rng().gen_range(0..upper)
}

/// `r` is a possible outcome of a draw from `0..upper`: a value that the
/// random draw made with bound `upper` may hand back. A draw made with a
/// smaller bound gives no such outcome for `upper`.
pub closed spec fn drawn_below(upper: usize, r: usize) -> bool {
    call_ensures(random_below, (upper,), r)
}

/// Every outcome of a draw from `0..upper` lies in `0..upper`.
pub proof fn drawn_below_is_in_range(upper: usize, r: usize)
    requires
        drawn_below(upper, r),
    ensures
        r < upper,
{
}

/// Draws a number from `0..upper`, and records that it is an outcome of a
/// draw with exactly that bound.
pub fn draw_below(upper: usize) -> (res: usize)
    requires
        upper > 0,
    ensures
        drawn_below(upper, res),
        res < upper,
{
    let draw = random_below;
    draw(upper)
}

} // verus!

//! The source of chance for placing food.

use rand::Rng;
use vstd::prelude::*;

verus! {

/// Draws an integer from the half-open range `low..high`.
///
/// Calls `rand::thread_rng()` and `rand::Rng::gen_range` on that range. The
/// contract is taken on trust from the generator: the draw lies in the range.
/// Nothing else is claimed of it, and two draws may differ. An empty range is
/// left out, since the generator does not accept one.
#[verifier::external_body]
pub(crate) fn random_between(low: i32, high: i32) -> (r: i32)
    requires
        low < high,
    ensures
        low <= r < high,
{
    rand::thread_rng().gen_range(low..high)
}

} // verus!

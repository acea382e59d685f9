//! The uniform random source, behind one trusted wrapper.

use vstd::prelude::*;

verus! {

/// Relies on `rand::random_range` over `low..high`: a sample drawn from the
/// thread-local generator, uniform over the half-open range `[low, high)`.
/// The call panics on an empty range, which the precondition rules out.
#[verifier::external_body]
pub(crate) fn sample_range(low: i64, high: i64) -> (r: i64)
    requires
        low < high,
    ensures
        low <= r < high,
{
    rand::random_range(low..high)
}

} // verus!

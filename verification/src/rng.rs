use vstd::prelude::*;
use rand::Rng;

verus! {

/// Relies on `rand::Rng::gen_range` on the thread-local generator
/// `rand::thread_rng`: the sample lies in the half-open range given to it,
/// and the call panics only on an empty range, which the precondition
/// excludes.  Nothing more is promised of a random value.
#[verifier::external_body]
pub(crate) fn sample_below(n: u64) -> (r: u64)
    requires
        n > 0,
    ensures
        r < n,
{
    rand::thread_rng().gen_range(0..n)
}

} // verus!

//! The library's single source of randomness, wrapped so that callers
//! get a plain bounded integer.

use vstd::prelude::*;
use rand::Rng;

verus! {

/// Relies on `rand::Rng::gen_range` over the half-open integer range
/// `lo..hi`: the sample lies in `[lo, hi)`, and the call panics only on
/// an empty range, which the precondition rules out. Nothing more is
/// assumed: the result may differ between two calls on equal arguments.
#[verifier::external_body]
pub(crate) fn random_in(lo: i64, hi: i64) -> (r: i64)
    requires
        lo < hi,
    ensures
        lo <= r < hi,
{
    rand::thread_rng().gen_range(lo..hi)
}

} // verus!

//! The random draws the game makes, through the `rand` crate.

use vstd::prelude::*;

use rand::distributions::{Distribution, WeightedError, WeightedIndex};
use rand::rngs::ThreadRng;
use rand::Rng;

verus! {

/// `rand::rngs::ThreadRng`, the thread-local generator.
#[verifier::external_type_specification]
#[verifier::external_body]
pub struct ExThreadRng(ThreadRng);

/// The odds of the four answers: a `rand::distributions::WeightedIndex<u32>`
/// built from four weights, which `weights_of` names.
#[verifier::external_body]
pub struct AnswerOdds {
    dist: WeightedIndex<u32>,
}

/// `rand::distributions::WeightedError`, why a `WeightedIndex` was refused.
#[verifier::external_type_specification]
#[verifier::external_body]
pub struct ExWeightedError(WeightedError);

/// The weights an `AnswerOdds` was built from, in order.
pub uninterp spec fn weights_of(d: AnswerOdds) -> Seq<u32>;

/// Sum of the four weights.
pub open spec fn weight_sum(w: Seq<u32>) -> int {
    w[0] + w[1] + w[2] + w[3]
}

/// `rand::thread_rng()`: a handle on the thread-local generator. Nothing is
/// stated of it.
#[verifier::external_body]
pub fn new_thread_rng() -> ThreadRng {
    rand::thread_rng()
}

/// `Rng::gen_range(low..high)` on a `u32` range. Claimed: the draw lies in
/// `[low, high)` (the crate asserts `low < high`, so that is required).
/// Which value comes is left open: it is random.
#[verifier::external_body]
pub fn gen_range_u32(rng: &mut ThreadRng, low: u32, high: u32) -> (r: u32)
    requires
        low < high,
    ensures
        low <= r < high,
{
    rng.gen_range(low..high)
}

impl AnswerOdds {
    /// `WeightedIndex::new` on four `u32` weights. Claimed: it succeeds exactly
    /// when the weights do not all vanish, and then holds these weights in
    /// order. Required: their sum fits in a `u32` (the crate adds them up in
    /// `u32`).
    #[verifier::external_body]
    pub fn new(weights: [u32; 4]) -> (res: Result<AnswerOdds, WeightedError>)
        requires
            weight_sum(weights@) <= u32::MAX,
        ensures
            res is Ok <==> weight_sum(weights@) > 0,
            res matches Ok(d) ==> weights_of(d) == weights@,
    {
        match WeightedIndex::new(&weights) {
            Ok(dist) => Ok(AnswerOdds { dist }),
            Err(e) => Err(e),
        }
    }

    /// `Distribution::sample` of the `WeightedIndex`. Claimed: the index is
    /// one of the weights' positions and its weight is not zero. Which index
    /// comes is left open: it is random.
    #[verifier::external_body]
    pub fn sample(&self, rng: &mut ThreadRng) -> (i: usize)
        ensures
            i < weights_of(*self).len(),
            weights_of(*self)[i as int] > 0,
    {
        self.dist.sample(rng)
    }
}

} // verus!

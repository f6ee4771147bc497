//! Uniform random choice, through `rand`.
use vstd::prelude::*;
use rand::Rng;

verus! {

/// `rand::rng().random_range(0..bound)`: a number drawn from the thread-local
/// generator. The contract claims only that it lies below `bound`;
/// `random_range` panics on an empty range, which `requires` rules out.
#[verifier::external_body]
pub(crate) fn random_below(bound: usize) -> (r: usize)
    requires
        bound > 0,
    ensures
        r < bound,
{
    rand::rng().random_range(0..bound)
}

} // verus!

verus! {

/// A number drawn at random, together with the bound it was drawn below. Only
/// [`draw_below`] makes one, so a function that asks for a draw below a given
/// bound knows the draw was made over the whole range below that bound.
pub struct Draw {
    value: usize,
    bound: usize,
}

impl Draw {
    #[verifier::type_invariant]
    spec fn below_bound(self) -> bool {
        self.value < self.bound
    }

    /// The number drawn.
    pub closed spec fn drawn(&self) -> nat {
        self.value as nat
    }

    /// The bound it was drawn below.
    pub closed spec fn among(&self) -> nat {
        self.bound as nat
    }

    /// The number drawn, which lies below the bound.
    pub fn value(&self) -> (r: usize)
        ensures
            r == self.drawn(),
            r < self.among(),
    {
        proof {
            use_type_invariant(self);
        }
        self.value
    }
}

/// Draws a number at random below `bound`.
pub fn draw_below(bound: usize) -> (d: Draw)
    requires
        bound > 0,
    ensures
        d.among() == bound,
        d.drawn() < bound,
{
    Draw { value: random_below(bound), bound }
}

} // verus!

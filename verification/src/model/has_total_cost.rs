use vstd::prelude::*;

verus! {

/// Anything with a derived total cost in cents. The spec-level cost is
/// unbounded mathematical money; the executable getter asks that it fit.
pub trait HasTotalCost {
    /// The total cost in cents, as unbounded arithmetic.
    spec fn spec_total_cost(&self) -> int;

    /// A total cost is never negative.
    proof fn lemma_total_cost_nonneg(&self)
        ensures
            self.spec_total_cost() >= 0,
    ;

    /// The total cost in cents.
    fn total_cost(&self) -> (r: u64)
        requires
            0 <= self.spec_total_cost() <= u64::MAX,
        ensures
            r == self.spec_total_cost(),
    ;
}

} // verus!

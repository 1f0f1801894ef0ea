use vstd::prelude::*;

verus! {

/// A cost estimate; larger is more expensive.
pub type Weight = u64;

/// `x` clamped to the range of [`Weight`].
pub open spec fn saturate(x: int) -> Weight {
    if x > Weight::MAX {
        Weight::MAX
    } else if x < 0 {
        0
    } else {
        x as Weight
    }
}

/// Product of two weights, clamped at `Weight::MAX` instead of wrapping.
pub fn saturating_mul(a: Weight, b: Weight) -> (r: Weight)
    ensures
        r == saturate(a * b),
{
    proof {
        assert(a * b >= 0) by (nonlinear_arith);
    }
    match a.checked_mul(b) {
        Some(p) => p,
        None => Weight::MAX,
    }
}

/// Clamping is monotone.
pub proof fn lemma_saturate_monotone(x: int, y: int)
    requires
        x <= y,
    ensures
        saturate(x) <= saturate(y),
{
}

} // verus!

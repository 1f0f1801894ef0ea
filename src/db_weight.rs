use vstd::prelude::*;

use crate::weight::{saturate, saturating_mul, Weight};

verus! {

/// The price of one storage read and of one storage write in the active
/// runtime configuration.
#[derive(Clone, Copy, Debug, PartialEq, Eq, Structural)]
pub struct RuntimeDbWeight {
    pub read: Weight,
    pub write: Weight,
}

impl RuntimeDbWeight {
    /// The cost of `r` reads, saturating.
    pub fn reads(&self, r: Weight) -> (w: Weight)
        ensures
            w == saturate(self.read * r),
    {
        saturating_mul(self.read, r)
    }

    /// The cost of `w` writes, saturating.
    pub fn writes(&self, w: Weight) -> (c: Weight)
        ensures
            c == saturate(self.write * w),
    {
        saturating_mul(self.write, w)
    }
}

} // verus!

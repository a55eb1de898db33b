use vstd::prelude::*;

verus! {

/// A size in pixels.
#[derive(Clone, Copy, Debug, PartialEq, Eq, Structural)]
pub struct Resolution {
    pub width: u32,
    pub height: u32,
}

impl Resolution {
    /// `self` is no larger than `other` on either axis.
    pub open spec fn fits_within(self, other: Resolution) -> bool {
        self.width <= other.width && self.height <= other.height
    }
}

} // verus!

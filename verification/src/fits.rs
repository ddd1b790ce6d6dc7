use vstd::prelude::*;

use crate::datasize::{max_value_of, DataSize};

verus! {

/// Whether a value can be represented in the bit width that a [DataSize]'s
/// stored bit count names.
pub trait Fits {
    /// What fitting means for this type.
    spec fn fits_spec(&self, size: &DataSize) -> bool;

    /// Whether this value fits in `size`'s bit width.
    fn fits_in(&self, size: &DataSize) -> (r: bool)
        ensures
            r == self.fits_spec(size),
    ;
}

/// Whether or not the value of a u32 can fit into a given [DataSize]
impl Fits for u32 {
    /// A u32 fits exactly when it is at most the largest value
    /// representable in the bit width.
    open spec fn fits_spec(&self, size: &DataSize) -> bool {
        *self as nat <= max_value_of(size@)
    }

    fn fits_in(&self, size: &DataSize) -> (r: bool) {
        size.max_value() >= *self
    }
}

} // verus!

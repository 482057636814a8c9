//! The order of window sizes: one size comes before another when it is no larger in width and
//! no larger in height. Sizes of which each is larger in one dimension are not ordered.

use core::cmp::Ordering;
use vstd::prelude::*;
use vstd::std_specs::cmp::PartialOrdSpec;
use crate::window::WindowSize;

verus! {

impl PartialOrd for WindowSize {
    /// How `self` stands to `other` in both dimensions at once, if they are ordered.
    fn partial_cmp(&self, other: &WindowSize) -> (out: Option<Ordering>) {
        if self.width == other.width && self.height == other.height {
            Some(Ordering::Equal)
        } else if self.width <= other.width && self.height <= other.height {
            Some(Ordering::Less)
        } else if self.width >= other.width && self.height >= other.height {
            Some(Ordering::Greater)
        } else {
            None
        }
    }
}

impl vstd::std_specs::cmp::PartialOrdSpecImpl for WindowSize {
    open spec fn obeys_partial_cmp_spec() -> bool {
        true
    }

    open spec fn partial_cmp_spec(&self, other: &WindowSize) -> Option<Ordering> {
        if self.width == other.width && self.height == other.height {
            Some(Ordering::Equal)
        } else if self.width <= other.width && self.height <= other.height {
            Some(Ordering::Less)
        } else if self.width >= other.width && self.height >= other.height {
            Some(Ordering::Greater)
        } else {
            None
        }
    }
}

/// A size is at most another exactly when it fits in it: when it is no larger in width and no
/// larger in height.
pub proof fn lemma_at_most_is_fits_in(a: WindowSize, b: WindowSize)
    ensures
        (a.partial_cmp_spec(&b) == Some(Ordering::Less) || a.partial_cmp_spec(&b) == Some(
            Ordering::Equal,
        )) <==> a.fits_in(b),
        a.partial_cmp_spec(&b) == Some(Ordering::Equal) <==> a == b,
{
}

/// The order of sizes is a partial order: a size is at most itself, two sizes that are at most
/// each other are the same, and a size that is at most a second that is at most a third is at
/// most the third.
pub proof fn lemma_sizes_partially_ordered(a: WindowSize, b: WindowSize, c: WindowSize)
    ensures
        a.fits_in(a),
        a.fits_in(b) && b.fits_in(a) ==> a == b,
        a.fits_in(b) && b.fits_in(c) ==> a.fits_in(c),
{
}

} // verus!

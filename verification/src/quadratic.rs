//! Real roots of quadratics.

use crate::scalar::Scalar;
use vstd::prelude::*;

verus! {

/// The number of real roots of a quadratic with the given discriminant: none
/// where it is negative, one where it is zero, else two. A discriminant that
/// is not a number counts as positive; the two roots are then not numbers
/// either.
pub fn root_count(discriminant: Scalar) -> (count: u8)
    ensures
        count == if discriminant.spec_less_than(Scalar { bits: 0 }) {
            0u8
        } else if discriminant.spec_equals(Scalar { bits: 0 }) {
            1u8
        } else {
            2u8
        },
{
    let zero = Scalar::zero();
    if discriminant.less_than(zero) {
        0
    } else if discriminant.equals(zero) {
        1
    } else {
        2
    }
}

} // verus!

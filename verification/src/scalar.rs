//! IEEE 754 binary32 values by bit pattern, with the comparisons of the
//! standard: not-a-number compares false with everything, and the two zeros
//! are equal.

use core::cmp::Ordering;
use vstd::prelude::*;
use vstd::std_specs::cmp::PartialEqSpecImpl;
use vstd::std_specs::cmp::PartialOrdSpecImpl;

verus! {

/// The bit pattern that holds the sign bit alone (negative zero).
pub const SIGN_BIT: u32 = 0x8000_0000;

/// The bit pattern of positive infinity. A larger magnitude is not a number.
pub const INFINITY_BITS: u32 = 0x7f80_0000;

/// The bit pattern of one.
pub const ONE_BITS: u32 = 0x3f80_0000;

/// The bit pattern of the gap between one and the next greater value.
pub const EPSILON_BITS: u32 = 0x3400_0000;

/// How two things stand to each other that are compared part by part: as
/// their first parts do, unless those are equal; then as the rest does.
pub open spec fn then_compared(first: Option<Ordering>, rest: Option<Ordering>) -> Option<
    Ordering,
> {
    match first {
        Some(Ordering::Equal) => rest,
        decided => decided,
    }
}

#[verifier::when_used_as_spec(then_compared)]
pub fn first_decided(first: Option<Ordering>, rest: Option<Ordering>) -> (r: Option<Ordering>)
    ensures
        r == then_compared(first, rest),
{
    match first {
        Some(Ordering::Equal) => rest,
        decided => decided,
    }
}

/// A binary32 value, held as its 32 bits: sign, 8 bits of exponent, 23 bits of
/// fraction.
#[derive(Clone, Copy, Debug)]
pub struct Scalar {
    pub bits: u32,
}

impl Scalar {
    /// The bits without the sign.
    pub open spec fn magnitude(self) -> int {
        if self.bits >= SIGN_BIT {
            self.bits - SIGN_BIT
        } else {
            self.bits as int
        }
    }

    /// The sign bit is set (true of negative zero too).
    pub open spec fn sign(self) -> bool {
        self.bits >= SIGN_BIT
    }

    /// Not a number: the exponent is all ones and the fraction is not zero.
    pub open spec fn spec_is_nan(self) -> bool {
        self.magnitude() > INFINITY_BITS
    }

    /// The place of the value on the number line, as an integer: of two values
    /// that are numbers, the smaller has the smaller rank, and the two zeros
    /// share rank 0.
    pub open spec fn rank(self) -> int {
        if self.sign() {
            -self.magnitude()
        } else {
            self.magnitude()
        }
    }

    /// `self < other` as the standard defines it.
    pub open spec fn spec_less_than(self, other: Scalar) -> bool {
        !self.spec_is_nan() && !other.spec_is_nan() && self.rank() < other.rank()
    }

    /// `self <= other` as the standard defines it.
    pub open spec fn spec_at_most(self, other: Scalar) -> bool {
        !self.spec_is_nan() && !other.spec_is_nan() && self.rank() <= other.rank()
    }

    /// `self > other` as the standard defines it.
    pub open spec fn spec_greater_than(self, other: Scalar) -> bool {
        other.spec_less_than(self)
    }

    /// `self >= other` as the standard defines it.
    pub open spec fn spec_at_least(self, other: Scalar) -> bool {
        other.spec_at_most(self)
    }

    /// `self == other` as the standard defines it: both are numbers of the same
    /// rank. Different bit patterns can be equal (the zeros), and equal bit
    /// patterns can be unequal (not-a-number).
    pub open spec fn spec_equals(self, other: Scalar) -> bool {
        !self.spec_is_nan() && !other.spec_is_nan() && self.rank() == other.rank()
    }

    /// How `self` stands to `other`: before it, after it, equal to it, or, where
    /// one of the two is not a number, not at all.
    pub open spec fn compared_to(self, other: Scalar) -> Option<Ordering> {
        if self.spec_less_than(other) {
            Some(Ordering::Less)
        } else if other.spec_less_than(self) {
            Some(Ordering::Greater)
        } else if self.spec_equals(other) {
            Some(Ordering::Equal)
        } else {
            None
        }
    }

    /// The value with the sign bit flipped.
    pub open spec fn spec_negated(self) -> Scalar {
        if self.bits >= SIGN_BIT {
            Scalar { bits: (self.bits - SIGN_BIT) as u32 }
        } else {
            Scalar { bits: (self.bits + SIGN_BIT) as u32 }
        }
    }

    /// The value with the sign bit cleared.
    pub open spec fn spec_abs(self) -> Scalar {
        if self.bits >= SIGN_BIT {
            Scalar { bits: (self.bits - SIGN_BIT) as u32 }
        } else {
            self
        }
    }

    /// The smaller of two values. Where one of them is not a number, it is the
    /// other; where neither is smaller, it is `self`.
    pub open spec fn spec_min(self, other: Scalar) -> Scalar {
        if other.spec_less_than(self) || self.spec_is_nan() {
            other
        } else {
            self
        }
    }

    /// The greater of two values. Where one of them is not a number, it is the
    /// other; where neither is greater, it is `self`.
    pub open spec fn spec_max(self, other: Scalar) -> Scalar {
        if other.spec_greater_than(self) || self.spec_is_nan() {
            other
        } else {
            self
        }
    }

    /// Among numbers, "less than" is a strict order in which any two values
    /// are either equal or one is less than the other, and "at most" is "less
    /// than or equal".
    pub proof fn lemma_order_of_numbers(a: Scalar, b: Scalar, c: Scalar)
        requires
            !a.spec_is_nan(),
            !b.spec_is_nan(),
            !c.spec_is_nan(),
        ensures
            !a.spec_less_than(a),
            a.spec_less_than(b) ==> !b.spec_less_than(a),
            a.spec_less_than(b) && b.spec_less_than(c) ==> a.spec_less_than(c),
            a.spec_less_than(b) || a.spec_equals(b) || b.spec_less_than(a),
            a.spec_at_most(b) <==> a.spec_less_than(b) || a.spec_equals(b),
            a.spec_equals(a),
    {
    }

    /// What is not a number is neither less than, nor greater than, nor equal
    /// to anything, itself included.
    pub proof fn lemma_not_a_number_compares_false(a: Scalar, b: Scalar)
        requires
            a.spec_is_nan(),
        ensures
            !a.spec_less_than(b) && !b.spec_less_than(a),
            !a.spec_at_most(b) && !b.spec_at_most(a),
            !a.spec_equals(b) && !b.spec_equals(a) && !a.spec_equals(a),
            a.compared_to(b) is None && b.compared_to(a) is None,
    {
    }

    /// Flipping the signs turns the order round, and flipping twice gives the
    /// value back.
    pub proof fn lemma_negation(a: Scalar, b: Scalar)
        ensures
            a.spec_negated().spec_negated() == a,
            a.spec_negated().spec_is_nan() == a.spec_is_nan(),
            a.spec_less_than(b) == b.spec_negated().spec_less_than(a.spec_negated()),
            a.spec_equals(b) == a.spec_negated().spec_equals(b.spec_negated()),
    {
    }

    pub fn from_bits(bits: u32) -> (s: Scalar)
        ensures
            s.bits == bits,
    {
        Scalar { bits }
    }

    pub fn to_bits(self) -> (bits: u32)
        ensures
            bits == self.bits,
    {
        self.bits
    }

    /// Positive zero.
    pub fn zero() -> (s: Scalar)
        ensures
            s.bits == 0,
    {
        Scalar { bits: 0 }
    }

    /// One.
    pub fn one() -> (s: Scalar)
        ensures
            s.bits == ONE_BITS,
    {
        Scalar { bits: ONE_BITS }
    }

    fn signed_rank(self) -> (r: i64)
        ensures
            r == self.rank(),
            self.spec_is_nan() <==> (r > INFINITY_BITS || r < -INFINITY_BITS),
    {
        if self.bits >= SIGN_BIT {
            let m: u32 = self.bits - SIGN_BIT;
            -(m as i64)
        } else {
            self.bits as i64
        }
    }

    #[verifier::when_used_as_spec(spec_is_nan)]
    pub fn is_nan(self) -> (r: bool)
        ensures
            r == self.spec_is_nan(),
    {
        let m: u32 = if self.bits >= SIGN_BIT {
            self.bits - SIGN_BIT
        } else {
            self.bits
        };
        m > INFINITY_BITS
    }

    #[verifier::when_used_as_spec(spec_less_than)]
    pub fn less_than(self, other: Scalar) -> (r: bool)
        ensures
            r == self.spec_less_than(other),
    {
        !self.is_nan() && !other.is_nan() && self.signed_rank() < other.signed_rank()
    }

    #[verifier::when_used_as_spec(spec_at_most)]
    pub fn at_most(self, other: Scalar) -> (r: bool)
        ensures
            r == self.spec_at_most(other),
    {
        !self.is_nan() && !other.is_nan() && self.signed_rank() <= other.signed_rank()
    }

    #[verifier::when_used_as_spec(spec_greater_than)]
    pub fn greater_than(self, other: Scalar) -> (r: bool)
        ensures
            r == self.spec_greater_than(other),
    {
        other.less_than(self)
    }

    #[verifier::when_used_as_spec(spec_at_least)]
    pub fn at_least(self, other: Scalar) -> (r: bool)
        ensures
            r == self.spec_at_least(other),
    {
        other.at_most(self)
    }

    #[verifier::when_used_as_spec(spec_equals)]
    pub fn equals(self, other: Scalar) -> (r: bool)
        ensures
            r == self.spec_equals(other),
    {
        !self.is_nan() && !other.is_nan() && self.signed_rank() == other.signed_rank()
    }

    #[verifier::when_used_as_spec(spec_abs)]
    pub fn abs(self) -> (r: Scalar)
        ensures
            r == self.spec_abs(),
    {
        if self.bits >= SIGN_BIT {
            Scalar { bits: self.bits - SIGN_BIT }
        } else {
            self
        }
    }

    #[verifier::when_used_as_spec(spec_min)]
    pub fn min(self, other: Scalar) -> (r: Scalar)
        ensures
            r == self.spec_min(other),
    {
        if other.less_than(self) || self.is_nan() {
            other
        } else {
            self
        }
    }

    #[verifier::when_used_as_spec(spec_max)]
    pub fn max(self, other: Scalar) -> (r: Scalar)
        ensures
            r == self.spec_max(other),
    {
        if other.greater_than(self) || self.is_nan() {
            other
        } else {
            self
        }
    }

    #[verifier::when_used_as_spec(spec_negated)]
    pub fn negated(self) -> (r: Scalar)
        ensures
            r == self.spec_negated(),
    {
        if self.bits >= SIGN_BIT {
            Scalar { bits: self.bits - SIGN_BIT }
        } else {
            Scalar { bits: self.bits + SIGN_BIT }
        }
    }
}

impl PartialEq for Scalar {
    fn eq(&self, other: &Scalar) -> (r: bool) {
        self.equals(*other)
    }
}

impl PartialEqSpecImpl for Scalar {
    open spec fn obeys_eq_spec() -> bool {
        true
    }

    open spec fn eq_spec(&self, other: &Scalar) -> bool {
        self.spec_equals(*other)
    }
}

impl PartialOrd for Scalar {
    fn partial_cmp(&self, other: &Scalar) -> (r: Option<Ordering>) {
        if self.less_than(*other) {
            Some(Ordering::Less)
        } else if other.less_than(*self) {
            Some(Ordering::Greater)
        } else if self.equals(*other) {
            Some(Ordering::Equal)
        } else {
            None
        }
    }
}

impl PartialOrdSpecImpl for Scalar {
    open spec fn obeys_partial_cmp_spec() -> bool {
        true
    }

    open spec fn partial_cmp_spec(&self, other: &Scalar) -> Option<Ordering> {
        self.compared_to(*other)
    }
}

} // verus!

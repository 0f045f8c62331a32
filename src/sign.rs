use vstd::std_specs::ops::{DivSpec, MulSpec};
use vstd::prelude::*;

verus! {

/// The sign of a value: positive, negative, or exactly zero.
///
/// Signs multiply and divide with each other as the signs of real numbers
/// do, and they multiply and divide the signed integer types `i8` to `i128`.
#[derive(Clone, Copy, Debug, PartialEq, Eq, Structural, Hash)]
pub enum Sign {
    /// A positive value.
    Positive,
    /// A negative value.
    Negative,
    /// A value that is exactly zero.
    Zero,
}

/// The sign of an integer.
pub open spec fn sign_of(f: int) -> Sign {
    if f > 0 {
        Sign::Positive
    } else if f < 0 {
        Sign::Negative
    } else {
        Sign::Zero
    }
}

impl Sign {
    /// The unit factor that the sign stands for: 1, -1 or 0.
    pub open spec fn factor(self) -> int {
        match self {
            Sign::Positive => 1,
            Sign::Negative => -1,
            Sign::Zero => 0,
        }
    }

    /// The sign of the product of two numbers with signs `self` and `rhs`.
    pub open spec fn product(self, rhs: Sign) -> Sign {
        sign_of(self.factor() * rhs.factor())
    }

    /// The opposite sign.
    pub open spec fn opposite(self) -> Sign {
        sign_of(-self.factor())
    }

    /// The sign is positive.
    pub open spec fn spec_is_positive(self) -> bool {
        self is Positive
    }

    /// The sign is negative.
    pub open spec fn spec_is_negative(self) -> bool {
        self is Negative
    }

    /// The sign is zero.
    pub open spec fn spec_is_zero(self) -> bool {
        self is Zero
    }

    /// Returns the opposite of the sign: `Positive` and `Negative` swap,
    /// `Zero` stays.
    #[verifier::when_used_as_spec(opposite)]
    pub fn negate(self) -> (r: Sign)
        ensures
            r == self.opposite(),
            r.factor() == -self.factor(),
    {
        match self {
            Sign::Positive => Sign::Negative,
            Sign::Negative => Sign::Positive,
            Sign::Zero => Sign::Zero,
        }
    }

    /// Is the sign positive?
    #[verifier::when_used_as_spec(spec_is_positive)]
    pub fn is_positive(self) -> (r: bool)
        ensures
            r == (self is Positive),
    {
        matches!(self, Sign::Positive)
    }

    /// Is the sign negative?
    #[verifier::when_used_as_spec(spec_is_negative)]
    pub fn is_negative(self) -> (r: bool)
        ensures
            r == (self is Negative),
    {
        matches!(self, Sign::Negative)
    }

    /// Is the value exactly zero?
    #[verifier::when_used_as_spec(spec_is_zero)]
    pub fn is_zero(self) -> (r: bool)
        ensures
            r == (self is Zero),
    {
        matches!(self, Sign::Zero)
    }
}

impl Default for Sign {
    /// A sign defaults to `Zero`.
    fn default() -> (r: Sign)
        ensures
            r == Sign::Zero,
    {
        Sign::Zero
    }
}

impl core::ops::Mul<Sign> for Sign {
    type Output = Sign;

    /// Multiplies signs as the signs of real numbers multiply: `Zero` on
    /// either side gives `Zero`, equal signs give `Positive`, opposite signs
    /// give `Negative`.
    fn mul(self, rhs: Sign) -> (r: Sign)
        ensures
            r == self.product(rhs),
            r.factor() == self.factor() * rhs.factor(),
    {
        match (self, rhs) {
            (Sign::Zero, _) | (_, Sign::Zero) => Sign::Zero,
            (Sign::Positive, Sign::Positive) | (Sign::Negative, Sign::Negative) => Sign::Positive,
            (Sign::Positive, Sign::Negative) | (Sign::Negative, Sign::Positive) => Sign::Negative,
        }
    }
}

impl vstd::std_specs::ops::MulSpecImpl<Sign> for Sign {
    open spec fn obeys_mul_spec() -> bool {
        true
    }

    open spec fn mul_req(self, rhs: Sign) -> bool {
        true
    }

    open spec fn mul_spec(self, rhs: Sign) -> Sign {
        self.product(rhs)
    }
}

impl core::ops::MulAssign<Sign> for Sign {
    /// Replaces the sign with its product with `rhs`.
    fn mul_assign(&mut self, rhs: Sign)
        ensures
            *final(self) == old(self).product(rhs),
    {
        *self = *self * rhs;
    }
}

impl core::ops::Div<Sign> for Sign {
    type Output = Sign;

    /// Divides signs as the signs of real numbers divide, which gives the
    /// same result as multiplying them.
    fn div(self, rhs: Sign) -> (r: Sign)
        ensures
            r == self.product(rhs),
    {
        self * rhs
    }
}

impl vstd::std_specs::ops::DivSpecImpl<Sign> for Sign {
    open spec fn obeys_div_spec() -> bool {
        true
    }

    open spec fn div_req(self, rhs: Sign) -> bool {
        true
    }

    open spec fn div_spec(self, rhs: Sign) -> Sign {
        self.product(rhs)
    }
}

impl core::ops::DivAssign<Sign> for Sign {
    /// Replaces the sign with its quotient by `rhs`.
    fn div_assign(&mut self, rhs: Sign)
        ensures
            *final(self) == old(self).product(rhs),
    {
        *self = *self * rhs;
    }
}

/// Every sign is exactly one of positive, negative and zero.
pub proof fn lemma_exactly_one_kind(s: Sign)
    ensures
        s.is_positive() || s.is_negative() || s.is_zero(),
        !(s.is_positive() && s.is_negative()),
        !(s.is_positive() && s.is_zero()),
        !(s.is_negative() && s.is_zero()),
{
}

/// Negating twice gives the sign back, and zero is its own negation.
pub proof fn lemma_negate_involution(s: Sign)
    ensures
        s.negate().negate() == s,
        Sign::Zero.negate() == Sign::Zero,
{
}

/// The product of two signs is `Zero` when either is `Zero`, `Positive`
/// when they are equal, and `Negative` when they are opposite.
pub proof fn lemma_product_table(a: Sign, b: Sign)
    ensures
        a.product(b) == (if a is Zero || b is Zero {
            Sign::Zero
        } else if a == b {
            Sign::Positive
        } else {
            Sign::Negative
        }),
{
}

/// Dividing one sign by another gives what multiplying them gives.
pub proof fn lemma_div_is_mul(a: Sign, b: Sign)
    ensures
        a.div_spec(b) == a.mul_spec(b),
{
}

} // verus!

use crate::sign::Sign;
use vstd::prelude::*;

verus! {

/// `v` multiplied by the unit factor of `s`: `v`, `-v` or zero.
pub open spec fn scaled(s: Sign, v: int) -> int {
    s.factor() * v
}

/// What multiply-assigning `v` by `s` leaves in `v`: the value negated
/// when `s` is `Negative`, and the value unchanged otherwise. Unlike
/// `scaled`, a `Zero` sign does not clear the value.
pub open spec fn scaled_in_place(v: int, s: Sign) -> int {
    if s is Negative {
        -v
    } else {
        v
    }
}

/// A positive sign keeps a value, a negative sign negates it, and a zero
/// sign gives zero.
pub proof fn lemma_scaled_by_each_sign(v: int)
    ensures
        scaled(Sign::Positive, v) == v,
        scaled(Sign::Negative, v) == -v,
        scaled(Sign::Zero, v) == 0,
{
}

/// Multiply-assigning by `Zero` leaves a value as it was, while
/// multiplying by `Zero` gives zero.
pub proof fn lemma_zero_assign_keeps_value(v: int)
    ensures
        scaled_in_place(v, Sign::Zero) == v,
        scaled(Sign::Zero, v) == 0,
{
}

/// Multiply-assigning by `Negative` negates a value, and by `Positive`
/// leaves it as it was.
pub proof fn lemma_unit_assign(v: int)
    ensures
        scaled_in_place(v, Sign::Negative) == -v,
        scaled_in_place(v, Sign::Positive) == v,
{
}

/// Multiplying twice by `Positive`, or twice by `Negative`, gives the value
/// back.
pub proof fn lemma_round_trip(v: int)
    ensures
        scaled(Sign::Positive, scaled(Sign::Positive, v)) == v,
        scaled(Sign::Negative, scaled(Sign::Negative, v)) == v,
{
}

impl core::ops::Mul<i8> for Sign {
    type Output = i8;

    /// Applies the sign to `rhs`: `rhs` itself, its negation, or zero.
    fn mul(self, rhs: i8) -> (r: i8)
        ensures
            r as int == scaled(self, rhs as int),
    {
        match self {
            Sign::Positive => rhs,
            Sign::Negative => -rhs,
            Sign::Zero => 0,
        }
    }
}

impl vstd::std_specs::ops::MulSpecImpl<i8> for Sign {
    open spec fn obeys_mul_spec() -> bool {
        true
    }

    open spec fn mul_req(self, rhs: i8) -> bool {
        i8::MIN <= scaled(self, rhs as int) <= i8::MAX
    }

    open spec fn mul_spec(self, rhs: i8) -> i8 {
        scaled(self, rhs as int) as i8
    }
}

impl core::ops::Mul<Sign> for i8 {
    type Output = i8;

    /// Applies the sign `rhs` to the value: the value itself, its
    /// negation, or zero.
    fn mul(self, rhs: Sign) -> (r: i8)
        ensures
            r as int == scaled(rhs, self as int),
    {
        match rhs {
            Sign::Positive => self,
            Sign::Negative => -self,
            Sign::Zero => 0,
        }
    }
}

impl vstd::std_specs::ops::MulSpecImpl<Sign> for i8 {
    open spec fn obeys_mul_spec() -> bool {
        true
    }

    open spec fn mul_req(self, rhs: Sign) -> bool {
        i8::MIN <= scaled(rhs, self as int) <= i8::MAX
    }

    open spec fn mul_spec(self, rhs: Sign) -> i8 {
        scaled(rhs, self as int) as i8
    }
}

impl core::ops::MulAssign<Sign> for i8 {
    /// Negates the value if `rhs` is `Negative`; leaves it as it is
    /// otherwise, also when `rhs` is `Zero`.
    fn mul_assign(&mut self, rhs: Sign)
        requires
            i8::MIN <= scaled_in_place(*old(self) as int, rhs) <= i8::MAX,
        ensures
            *final(self) as int == scaled_in_place(*old(self) as int, rhs),
    {
        if rhs.is_negative() {
            *self = -*self;
        }
    }
}

impl core::ops::Div<Sign> for i8 {
    type Output = i8;

    /// Dividing by a sign gives the same result as multiplying by it.
    fn div(self, rhs: Sign) -> (r: i8)
        ensures
            r as int == scaled(rhs, self as int),
    {
        self * rhs
    }
}

impl vstd::std_specs::ops::DivSpecImpl<Sign> for i8 {
    open spec fn obeys_div_spec() -> bool {
        true
    }

    open spec fn div_req(self, rhs: Sign) -> bool {
        i8::MIN <= scaled(rhs, self as int) <= i8::MAX
    }

    open spec fn div_spec(self, rhs: Sign) -> i8 {
        scaled(rhs, self as int) as i8
    }
}

impl core::ops::DivAssign<Sign> for i8 {
    /// Dividing in place by a sign does what multiplying in place does.
    fn div_assign(&mut self, rhs: Sign)
        requires
            i8::MIN <= scaled_in_place(*old(self) as int, rhs) <= i8::MAX,
        ensures
            *final(self) as int == scaled_in_place(*old(self) as int, rhs),
    {
        core::ops::MulAssign::mul_assign(self, rhs);
    }
}

impl core::ops::Mul<i16> for Sign {
    type Output = i16;

    /// Applies the sign to `rhs`: `rhs` itself, its negation, or zero.
    fn mul(self, rhs: i16) -> (r: i16)
        ensures
            r as int == scaled(self, rhs as int),
    {
        match self {
            Sign::Positive => rhs,
            Sign::Negative => -rhs,
            Sign::Zero => 0,
        }
    }
}

impl vstd::std_specs::ops::MulSpecImpl<i16> for Sign {
    open spec fn obeys_mul_spec() -> bool {
        true
    }

    open spec fn mul_req(self, rhs: i16) -> bool {
        i16::MIN <= scaled(self, rhs as int) <= i16::MAX
    }

    open spec fn mul_spec(self, rhs: i16) -> i16 {
        scaled(self, rhs as int) as i16
    }
}

impl core::ops::Mul<Sign> for i16 {
    type Output = i16;

    /// Applies the sign `rhs` to the value: the value itself, its
    /// negation, or zero.
    fn mul(self, rhs: Sign) -> (r: i16)
        ensures
            r as int == scaled(rhs, self as int),
    {
        match rhs {
            Sign::Positive => self,
            Sign::Negative => -self,
            Sign::Zero => 0,
        }
    }
}

impl vstd::std_specs::ops::MulSpecImpl<Sign> for i16 {
    open spec fn obeys_mul_spec() -> bool {
        true
    }

    open spec fn mul_req(self, rhs: Sign) -> bool {
        i16::MIN <= scaled(rhs, self as int) <= i16::MAX
    }

    open spec fn mul_spec(self, rhs: Sign) -> i16 {
        scaled(rhs, self as int) as i16
    }
}

impl core::ops::MulAssign<Sign> for i16 {
    /// Negates the value if `rhs` is `Negative`; leaves it as it is
    /// otherwise, also when `rhs` is `Zero`.
    fn mul_assign(&mut self, rhs: Sign)
        requires
            i16::MIN <= scaled_in_place(*old(self) as int, rhs) <= i16::MAX,
        ensures
            *final(self) as int == scaled_in_place(*old(self) as int, rhs),
    {
        if rhs.is_negative() {
            *self = -*self;
        }
    }
}

impl core::ops::Div<Sign> for i16 {
    type Output = i16;

    /// Dividing by a sign gives the same result as multiplying by it.
    fn div(self, rhs: Sign) -> (r: i16)
        ensures
            r as int == scaled(rhs, self as int),
    {
        self * rhs
    }
}

impl vstd::std_specs::ops::DivSpecImpl<Sign> for i16 {
    open spec fn obeys_div_spec() -> bool {
        true
    }

    open spec fn div_req(self, rhs: Sign) -> bool {
        i16::MIN <= scaled(rhs, self as int) <= i16::MAX
    }

    open spec fn div_spec(self, rhs: Sign) -> i16 {
        scaled(rhs, self as int) as i16
    }
}

impl core::ops::DivAssign<Sign> for i16 {
    /// Dividing in place by a sign does what multiplying in place does.
    fn div_assign(&mut self, rhs: Sign)
        requires
            i16::MIN <= scaled_in_place(*old(self) as int, rhs) <= i16::MAX,
        ensures
            *final(self) as int == scaled_in_place(*old(self) as int, rhs),
    {
        core::ops::MulAssign::mul_assign(self, rhs);
    }
}

impl core::ops::Mul<i32> for Sign {
    type Output = i32;

    /// Applies the sign to `rhs`: `rhs` itself, its negation, or zero.
    fn mul(self, rhs: i32) -> (r: i32)
        ensures
            r as int == scaled(self, rhs as int),
    {
        match self {
            Sign::Positive => rhs,
            Sign::Negative => -rhs,
            Sign::Zero => 0,
        }
    }
}

impl vstd::std_specs::ops::MulSpecImpl<i32> for Sign {
    open spec fn obeys_mul_spec() -> bool {
        true
    }

    open spec fn mul_req(self, rhs: i32) -> bool {
        i32::MIN <= scaled(self, rhs as int) <= i32::MAX
    }

    open spec fn mul_spec(self, rhs: i32) -> i32 {
        scaled(self, rhs as int) as i32
    }
}

impl core::ops::Mul<Sign> for i32 {
    type Output = i32;

    /// Applies the sign `rhs` to the value: the value itself, its
    /// negation, or zero.
    fn mul(self, rhs: Sign) -> (r: i32)
        ensures
            r as int == scaled(rhs, self as int),
    {
        match rhs {
            Sign::Positive => self,
            Sign::Negative => -self,
            Sign::Zero => 0,
        }
    }
}

impl vstd::std_specs::ops::MulSpecImpl<Sign> for i32 {
    open spec fn obeys_mul_spec() -> bool {
        true
    }

    open spec fn mul_req(self, rhs: Sign) -> bool {
        i32::MIN <= scaled(rhs, self as int) <= i32::MAX
    }

    open spec fn mul_spec(self, rhs: Sign) -> i32 {
        scaled(rhs, self as int) as i32
    }
}

impl core::ops::MulAssign<Sign> for i32 {
    /// Negates the value if `rhs` is `Negative`; leaves it as it is
    /// otherwise, also when `rhs` is `Zero`.
    fn mul_assign(&mut self, rhs: Sign)
        requires
            i32::MIN <= scaled_in_place(*old(self) as int, rhs) <= i32::MAX,
        ensures
            *final(self) as int == scaled_in_place(*old(self) as int, rhs),
    {
        if rhs.is_negative() {
            *self = -*self;
        }
    }
}

impl core::ops::Div<Sign> for i32 {
    type Output = i32;

    /// Dividing by a sign gives the same result as multiplying by it.
    fn div(self, rhs: Sign) -> (r: i32)
        ensures
            r as int == scaled(rhs, self as int),
    {
        self * rhs
    }
}

impl vstd::std_specs::ops::DivSpecImpl<Sign> for i32 {
    open spec fn obeys_div_spec() -> bool {
        true
    }

    open spec fn div_req(self, rhs: Sign) -> bool {
        i32::MIN <= scaled(rhs, self as int) <= i32::MAX
    }

    open spec fn div_spec(self, rhs: Sign) -> i32 {
        scaled(rhs, self as int) as i32
    }
}

impl core::ops::DivAssign<Sign> for i32 {
    /// Dividing in place by a sign does what multiplying in place does.
    fn div_assign(&mut self, rhs: Sign)
        requires
            i32::MIN <= scaled_in_place(*old(self) as int, rhs) <= i32::MAX,
        ensures
            *final(self) as int == scaled_in_place(*old(self) as int, rhs),
    {
        core::ops::MulAssign::mul_assign(self, rhs);
    }
}

impl core::ops::Mul<i64> for Sign {
    type Output = i64;

    /// Applies the sign to `rhs`: `rhs` itself, its negation, or zero.
    fn mul(self, rhs: i64) -> (r: i64)
        ensures
            r as int == scaled(self, rhs as int),
    {
        match self {
            Sign::Positive => rhs,
            Sign::Negative => -rhs,
            Sign::Zero => 0,
        }
    }
}

impl vstd::std_specs::ops::MulSpecImpl<i64> for Sign {
    open spec fn obeys_mul_spec() -> bool {
        true
    }

    open spec fn mul_req(self, rhs: i64) -> bool {
        i64::MIN <= scaled(self, rhs as int) <= i64::MAX
    }

    open spec fn mul_spec(self, rhs: i64) -> i64 {
        scaled(self, rhs as int) as i64
    }
}

impl core::ops::Mul<Sign> for i64 {
    type Output = i64;

    /// Applies the sign `rhs` to the value: the value itself, its
    /// negation, or zero.
    fn mul(self, rhs: Sign) -> (r: i64)
        ensures
            r as int == scaled(rhs, self as int),
    {
        match rhs {
            Sign::Positive => self,
            Sign::Negative => -self,
            Sign::Zero => 0,
        }
    }
}

impl vstd::std_specs::ops::MulSpecImpl<Sign> for i64 {
    open spec fn obeys_mul_spec() -> bool {
        true
    }

    open spec fn mul_req(self, rhs: Sign) -> bool {
        i64::MIN <= scaled(rhs, self as int) <= i64::MAX
    }

    open spec fn mul_spec(self, rhs: Sign) -> i64 {
        scaled(rhs, self as int) as i64
    }
}

impl core::ops::MulAssign<Sign> for i64 {
    /// Negates the value if `rhs` is `Negative`; leaves it as it is
    /// otherwise, also when `rhs` is `Zero`.
    fn mul_assign(&mut self, rhs: Sign)
        requires
            i64::MIN <= scaled_in_place(*old(self) as int, rhs) <= i64::MAX,
        ensures
            *final(self) as int == scaled_in_place(*old(self) as int, rhs),
    {
        if rhs.is_negative() {
            *self = -*self;
        }
    }
}

impl core::ops::Div<Sign> for i64 {
    type Output = i64;

    /// Dividing by a sign gives the same result as multiplying by it.
    fn div(self, rhs: Sign) -> (r: i64)
        ensures
            r as int == scaled(rhs, self as int),
    {
        self * rhs
    }
}

impl vstd::std_specs::ops::DivSpecImpl<Sign> for i64 {
    open spec fn obeys_div_spec() -> bool {
        true
    }

    open spec fn div_req(self, rhs: Sign) -> bool {
        i64::MIN <= scaled(rhs, self as int) <= i64::MAX
    }

    open spec fn div_spec(self, rhs: Sign) -> i64 {
        scaled(rhs, self as int) as i64
    }
}

impl core::ops::DivAssign<Sign> for i64 {
    /// Dividing in place by a sign does what multiplying in place does.
    fn div_assign(&mut self, rhs: Sign)
        requires
            i64::MIN <= scaled_in_place(*old(self) as int, rhs) <= i64::MAX,
        ensures
            *final(self) as int == scaled_in_place(*old(self) as int, rhs),
    {
        core::ops::MulAssign::mul_assign(self, rhs);
    }
}

impl core::ops::Mul<i128> for Sign {
    type Output = i128;

    /// Applies the sign to `rhs`: `rhs` itself, its negation, or zero.
    fn mul(self, rhs: i128) -> (r: i128)
        ensures
            r as int == scaled(self, rhs as int),
    {
        match self {
            Sign::Positive => rhs,
            Sign::Negative => -rhs,
            Sign::Zero => 0,
        }
    }
}

impl vstd::std_specs::ops::MulSpecImpl<i128> for Sign {
    open spec fn obeys_mul_spec() -> bool {
        true
    }

    open spec fn mul_req(self, rhs: i128) -> bool {
        i128::MIN <= scaled(self, rhs as int) <= i128::MAX
    }

    open spec fn mul_spec(self, rhs: i128) -> i128 {
        scaled(self, rhs as int) as i128
    }
}

impl core::ops::Mul<Sign> for i128 {
    type Output = i128;

    /// Applies the sign `rhs` to the value: the value itself, its
    /// negation, or zero.
    fn mul(self, rhs: Sign) -> (r: i128)
        ensures
            r as int == scaled(rhs, self as int),
    {
        match rhs {
            Sign::Positive => self,
            Sign::Negative => -self,
            Sign::Zero => 0,
        }
    }
}

impl vstd::std_specs::ops::MulSpecImpl<Sign> for i128 {
    open spec fn obeys_mul_spec() -> bool {
        true
    }

    open spec fn mul_req(self, rhs: Sign) -> bool {
        i128::MIN <= scaled(rhs, self as int) <= i128::MAX
    }

    open spec fn mul_spec(self, rhs: Sign) -> i128 {
        scaled(rhs, self as int) as i128
    }
}

impl core::ops::MulAssign<Sign> for i128 {
    /// Negates the value if `rhs` is `Negative`; leaves it as it is
    /// otherwise, also when `rhs` is `Zero`.
    fn mul_assign(&mut self, rhs: Sign)
        requires
            i128::MIN <= scaled_in_place(*old(self) as int, rhs) <= i128::MAX,
        ensures
            *final(self) as int == scaled_in_place(*old(self) as int, rhs),
    {
        if rhs.is_negative() {
            *self = -*self;
        }
    }
}

impl core::ops::Div<Sign> for i128 {
    type Output = i128;

    /// Dividing by a sign gives the same result as multiplying by it.
    fn div(self, rhs: Sign) -> (r: i128)
        ensures
            r as int == scaled(rhs, self as int),
    {
        self * rhs
    }
}

impl vstd::std_specs::ops::DivSpecImpl<Sign> for i128 {
    open spec fn obeys_div_spec() -> bool {
        true
    }

    open spec fn div_req(self, rhs: Sign) -> bool {
        i128::MIN <= scaled(rhs, self as int) <= i128::MAX
    }

    open spec fn div_spec(self, rhs: Sign) -> i128 {
        scaled(rhs, self as int) as i128
    }
}

impl core::ops::DivAssign<Sign> for i128 {
    /// Dividing in place by a sign does what multiplying in place does.
    fn div_assign(&mut self, rhs: Sign)
        requires
            i128::MIN <= scaled_in_place(*old(self) as int, rhs) <= i128::MAX,
        ensures
            *final(self) as int == scaled_in_place(*old(self) as int, rhs),
    {
        core::ops::MulAssign::mul_assign(self, rhs);
    }
}

} // verus!

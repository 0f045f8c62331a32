use time_sign::Sign;
use time_sign::Sign::{Negative, Positive, Zero};

fn mul_assigned(mut v: Sign, rhs: Sign) -> Sign {
    v *= rhs;
    v
}

fn div_assigned(mut v: Sign, rhs: Sign) -> Sign {
    v /= rhs;
    v
}

#[test]
fn default() {
    assert_eq!(Sign::default(), Zero);
}

#[test]
fn sign_mul_int() {
    assert_eq!(Positive * 2, 2);
    assert_eq!(Negative * 2, -2);
    assert_eq!(Zero * 2, 0);
}

#[test]
fn sign_mul_sign() {
    assert_eq!(Zero * Positive, Zero);
    assert_eq!(Zero * Negative, Zero);
    assert_eq!(Zero * Zero, Zero);
    assert_eq!(Positive * Zero, Zero);
    assert_eq!(Negative * Zero, Zero);
    assert_eq!(Positive * Positive, Positive);
    assert_eq!(Positive * Negative, Negative);
    assert_eq!(Negative * Positive, Negative);
    assert_eq!(Negative * Negative, Positive);
}

#[test]
fn sign_mul_assign_sign() {
    assert_eq!(mul_assigned(Zero, Positive), Zero);
    assert_eq!(mul_assigned(Zero, Negative), Zero);
    assert_eq!(mul_assigned(Zero, Zero), Zero);
    assert_eq!(mul_assigned(Positive, Zero), Zero);
    assert_eq!(mul_assigned(Negative, Zero), Zero);
    assert_eq!(mul_assigned(Positive, Positive), Positive);
    assert_eq!(mul_assigned(Positive, Negative), Negative);
    assert_eq!(mul_assigned(Negative, Positive), Negative);
    assert_eq!(mul_assigned(Negative, Negative), Positive);
}

#[test]
#[allow(clippy::eq_op)]
fn sign_div_sign() {
    assert_eq!(Zero / Positive, Zero);
    assert_eq!(Zero / Negative, Zero);
    assert_eq!(Zero / Zero, Zero);
    assert_eq!(Positive / Zero, Zero);
    assert_eq!(Negative / Zero, Zero);
    assert_eq!(Positive / Positive, Positive);
    assert_eq!(Positive / Negative, Negative);
    assert_eq!(Negative / Positive, Negative);
    assert_eq!(Negative / Negative, Positive);
}

#[test]
fn sign_div_assign_sign() {
    assert_eq!(div_assigned(Zero, Positive), Zero);
    assert_eq!(div_assigned(Zero, Negative), Zero);
    assert_eq!(div_assigned(Zero, Zero), Zero);
    assert_eq!(div_assigned(Positive, Zero), Zero);
    assert_eq!(div_assigned(Negative, Zero), Zero);
    assert_eq!(div_assigned(Positive, Positive), Positive);
    assert_eq!(div_assigned(Positive, Negative), Negative);
    assert_eq!(div_assigned(Negative, Positive), Negative);
    assert_eq!(div_assigned(Negative, Negative), Positive);
}

#[test]
fn negate() {
    assert_eq!(Positive.negate(), Negative);
    assert_eq!(Negative.negate(), Positive);
    assert_eq!(Zero.negate(), Zero);
}

#[test]
fn is_positive() {
    assert!(Positive.is_positive());
    assert!(!Negative.is_positive());
    assert!(!Zero.is_positive());
}

#[test]
fn is_negative() {
    assert!(!Positive.is_negative());
    assert!(Negative.is_negative());
    assert!(!Zero.is_negative());
}

#[test]
fn is_zero() {
    assert!(!Positive.is_zero());
    assert!(!Negative.is_zero());
    assert!(Zero.is_zero());
}

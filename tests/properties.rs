use time_sign::Sign;
use time_sign::Sign::{Negative, Positive, Zero};

const ALL: [Sign; 3] = [Positive, Negative, Zero];

#[test]
fn exactly_one_predicate_holds() {
    for s in ALL {
        let n = [s.is_positive(), s.is_negative(), s.is_zero()]
            .iter()
            .filter(|b| **b)
            .count();
        assert_eq!(n, 1);
    }
}

#[test]
fn negate_twice_is_identity() {
    for s in ALL {
        assert_eq!(s.negate().negate(), s);
    }
}

#[test]
fn division_of_signs_matches_multiplication() {
    for a in ALL {
        for b in ALL {
            assert_eq!(a / b, a * b);
        }
    }
}

#[test]
fn sign_product_rules() {
    for a in ALL {
        for b in ALL {
            let expected = if a == Zero || b == Zero {
                Zero
            } else if a == b {
                Positive
            } else {
                Negative
            };
            assert_eq!(a * b, expected);
        }
    }
}

#[test]
fn sign_times_each_width() {
    assert_eq!(Negative * 5i8, -5i8);
    assert_eq!(Negative * 5i16, -5i16);
    assert_eq!(Negative * 5i32, -5i32);
    assert_eq!(Negative * 5i64, -5i64);
    assert_eq!(Negative * 5i128, -5i128);
    assert_eq!(Zero * -7i8, 0);
    assert_eq!(Zero * -7i128, 0);
    assert_eq!(Positive * -7i64, -7);
}

#[test]
fn value_times_sign_matches_sign_times_value() {
    for s in ALL {
        assert_eq!(9i32 * s, s * 9i32);
        assert_eq!(-9i64 * s, s * -9i64);
        assert_eq!(3i8 * s, s * 3i8);
        assert_eq!(-3i16 * s, s * -3i16);
        assert_eq!(100i128 * s, s * 100i128);
    }
}

#[test]
fn value_divided_by_sign_matches_multiplication() {
    for s in ALL {
        assert_eq!(9i32 / s, 9i32 * s);
        assert_eq!(-4i8 / s, -4i8 * s);
        assert_eq!(12i128 / s, 12i128 * s);
    }
    assert_eq!(6i16 / Negative, -6);
    assert_eq!(6i64 / Zero, 0);
}

#[test]
fn assign_by_zero_keeps_value_but_product_is_zero() {
    let mut v: i32 = 42;
    v *= Zero;
    assert_eq!(v, 42);
    assert_eq!(42i32 * Zero, 0);
    let mut w: i64 = -8;
    w /= Zero;
    assert_eq!(w, -8);
}

#[test]
fn assign_by_unit_signs() {
    let mut v: i16 = 11;
    v *= Negative;
    assert_eq!(v, -11);
    v *= Positive;
    assert_eq!(v, -11);
    let mut w: i128 = -3;
    w /= Negative;
    assert_eq!(w, 3);
    let mut x: i8 = 7;
    x /= Positive;
    assert_eq!(x, 7);
}

#[test]
fn round_trip_through_sign() {
    for v in [-100i32, -1, 0, 1, 100, i32::MAX] {
        assert_eq!((v * Positive) * Positive, v);
        assert_eq!((v * Negative) * Negative, v);
    }
}

#[test]
fn extreme_values() {
    assert_eq!(Negative * i8::MAX, -127i8);
    assert_eq!(Positive * i8::MIN, i8::MIN);
    assert_eq!(Zero * i8::MIN, 0);
    assert_eq!(i64::MIN * Zero, 0);
    let mut v = i128::MIN;
    v *= Zero;
    assert_eq!(v, i128::MIN);
    assert_eq!(Negative * i128::MAX, -i128::MAX);
}

use plasma_furnace::scalar::{Scalar, INFINITY_BITS, MAGNITUDE_MASK, ONE_BITS, SIGN_MASK};

fn s(x: f64) -> Scalar {
    Scalar::from_bits(x.to_bits())
}

fn samples() -> Vec<f64> {
    vec![
        0.0,
        -0.0,
        1.0,
        -1.0,
        0.5,
        -0.5,
        25.0,
        1e-320,
        -1e-320,
        f64::MIN_POSITIVE,
        f64::MAX,
        f64::MIN,
        f64::INFINITY,
        f64::NEG_INFINITY,
        f64::NAN,
        -f64::NAN,
        0.999_999_999_999_999_9,
        1.000_000_000_000_000_2,
        1e300,
        -1e300,
        7850.0,
        3.5e-7,
    ]
}

#[test]
fn encoding_round_trips() {
    for x in samples() {
        assert_eq!(s(x).to_bits(), x.to_bits());
        assert_eq!(Scalar::from_bits(x.to_bits()).bits, x.to_bits());
    }
}

#[test]
fn masks_split_sign_and_magnitude() {
    assert_eq!(SIGN_MASK | MAGNITUDE_MASK, u64::MAX);
    assert_eq!(SIGN_MASK & MAGNITUDE_MASK, 0);
    assert_eq!(INFINITY_BITS, f64::INFINITY.to_bits());
    assert_eq!(ONE_BITS, 1.0f64.to_bits());
}

#[test]
fn zero_and_one_are_the_numbers() {
    assert_eq!(f64::from_bits(Scalar::zero().to_bits()), 0.0);
    assert_eq!(f64::from_bits(Scalar::one().to_bits()), 1.0);
    assert_eq!(Scalar::zero().to_bits(), 0);
}

#[test]
fn less_than_agrees_with_the_hardware() {
    for a in samples() {
        for b in samples() {
            assert_eq!(s(a).lt(s(b)), a < b, "{a} < {b}");
        }
    }
}

#[test]
fn at_most_agrees_with_the_hardware() {
    for a in samples() {
        for b in samples() {
            assert_eq!(s(a).le(s(b)), a <= b, "{a} <= {b}");
        }
    }
}

#[test]
fn greater_agrees_with_the_hardware() {
    for a in samples() {
        for b in samples() {
            assert_eq!(s(a).gt(s(b)), a > b, "{a} > {b}");
            assert_eq!(s(a).ge(s(b)), a >= b, "{a} >= {b}");
        }
    }
}

#[test]
fn same_value_agrees_with_the_hardware() {
    for a in samples() {
        for b in samples() {
            assert_eq!(s(a).same_value(s(b)), a == b, "{a} == {b}");
        }
    }
}

#[test]
fn the_two_zeros_are_the_same_value_and_different_encodings() {
    assert!(s(0.0).same_value(s(-0.0)));
    assert_ne!(s(0.0), s(-0.0));
    assert!(!s(f64::NAN).same_value(s(f64::NAN)));
    assert_eq!(s(f64::NAN), s(f64::NAN));
}

#[test]
fn classification_agrees_with_the_hardware() {
    for a in samples() {
        assert_eq!(s(a).is_nan(), a.is_nan(), "{a}");
        assert_eq!(s(a).is_finite(), a.is_finite(), "{a}");
        assert_eq!(s(a).is_positive(), a > 0.0, "{a}");
        assert_eq!(s(a).is_unit(), (0.0..=1.0).contains(&a), "{a}");
    }
}

#[test]
fn order_is_transitive_on_the_samples() {
    let xs = samples();
    for a in &xs {
        for b in &xs {
            for c in &xs {
                if s(*a).le(s(*b)) && s(*b).le(s(*c)) {
                    assert!(s(*a).le(s(*c)));
                }
            }
        }
    }
}

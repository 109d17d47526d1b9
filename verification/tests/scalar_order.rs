use path_tracer::scalar::{Scalar, INFINITY_BITS, ONE_BITS, SIGN_BIT};

fn s(x: f64) -> Scalar {
    Scalar::from_bits(x.to_bits())
}

fn samples() -> Vec<f64> {
    vec![
        0.0,
        -0.0,
        1.0,
        -1.0,
        0.5,
        -0.5,
        1.0e-8,
        -1.0e-8,
        0.001,
        0.999,
        255.99,
        f64::MIN_POSITIVE,
        -f64::MIN_POSITIVE,
        5.0e-324,
        -5.0e-324,
        f64::MAX,
        f64::MIN,
        f64::INFINITY,
        f64::NEG_INFINITY,
        f64::NAN,
        -f64::NAN,
        f64::from_bits(0x7ff0_0000_0000_0001),
        f64::from_bits(0xfff8_0000_0000_0000),
        1.0 + f64::EPSILON,
        1.0 - f64::EPSILON,
        3.5,
        -1000.0,
    ]
}

#[test]
fn bits_round_trip() {
    for x in samples() {
        assert_eq!(s(x).to_bits(), x.to_bits());
    }
    assert_eq!(Scalar::from_bits(42).to_bits(), 42);
}

#[test]
fn constants_are_the_numbers_they_name() {
    assert_eq!(Scalar::zero().to_bits(), 0.0f64.to_bits());
    assert_eq!(Scalar::one().to_bits(), 1.0f64.to_bits());
    assert_eq!(Scalar::infinity().to_bits(), f64::INFINITY.to_bits());
    assert_eq!(ONE_BITS, 1.0f64.to_bits());
    assert_eq!(INFINITY_BITS, f64::INFINITY.to_bits());
    assert_eq!(SIGN_BIT, (-0.0f64).to_bits());
}

#[test]
fn is_nan_agrees_with_the_machine() {
    for x in samples() {
        assert_eq!(s(x).is_nan(), x.is_nan(), "{:?}", x);
    }
}

#[test]
fn lt_agrees_with_the_machine() {
    for a in samples() {
        for b in samples() {
            assert_eq!(s(a).lt(s(b)), a < b, "{:?} < {:?}", a, b);
        }
    }
}

#[test]
fn le_agrees_with_the_machine() {
    for a in samples() {
        for b in samples() {
            assert_eq!(s(a).le(s(b)), a <= b, "{:?} <= {:?}", a, b);
        }
    }
}

#[test]
fn gt_agrees_with_the_machine() {
    for a in samples() {
        for b in samples() {
            assert_eq!(s(a).gt(s(b)), a > b, "{:?} > {:?}", a, b);
        }
    }
}

#[test]
fn ge_agrees_with_the_machine() {
    for a in samples() {
        for b in samples() {
            assert_eq!(s(a).ge(s(b)), a >= b, "{:?} >= {:?}", a, b);
        }
    }
}

#[test]
fn neg_agrees_with_the_machine() {
    for x in samples() {
        assert_eq!(s(x).neg().to_bits(), (-x).to_bits(), "{:?}", x);
        assert_eq!(s(x).neg().neg(), s(x));
    }
}

#[test]
fn both_zeros_compare_equal_but_differ_in_bits() {
    assert!(s(0.0).le(s(-0.0)));
    assert!(s(-0.0).le(s(0.0)));
    assert!(!s(0.0).lt(s(-0.0)));
    assert!(!s(-0.0).lt(s(0.0)));
    assert_ne!(s(0.0), s(-0.0));
}

#[test]
fn nan_fails_every_comparison() {
    let nan = s(f64::NAN);
    for x in samples() {
        assert!(!nan.lt(s(x)));
        assert!(!nan.le(s(x)));
        assert!(!nan.gt(s(x)));
        assert!(!nan.ge(s(x)));
        assert!(!s(x).lt(nan));
        assert!(!s(x).ge(nan));
    }
}

#[test]
fn negation_reverses_the_order() {
    for a in samples() {
        for b in samples() {
            assert_eq!(s(a).neg().lt(s(b).neg()), s(b).lt(s(a)));
            assert_eq!(s(a).neg().le(s(b).neg()), s(b).le(s(a)));
        }
    }
}

#[test]
fn order_is_transitive() {
    for a in samples() {
        for b in samples() {
            for c in samples() {
                if s(a).le(s(b)) && s(b).le(s(c)) {
                    assert!(s(a).le(s(c)));
                }
                if s(a).lt(s(b)) && s(b).le(s(c)) {
                    assert!(s(a).lt(s(c)));
                }
            }
        }
    }
}

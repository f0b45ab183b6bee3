use metaformer::binary64::{every_finite, Binary64, INFINITY_BITS, SIGN_BIT, ZERO_BITS};

fn of(x: f64) -> Binary64 {
    Binary64::from_bits(x.to_bits())
}

#[test]
fn bits_round_trip() {
    assert_eq!(Binary64::from_bits(0x3FF0_0000_0000_0000).to_bits(), 0x3FF0_0000_0000_0000);
    assert_eq!(of(1.0).to_bits(), 0x3FF0_0000_0000_0000);
    assert_eq!(of(0.0).to_bits(), ZERO_BITS);
    assert_eq!(of(-0.0).to_bits(), SIGN_BIT);
    assert_eq!(of(f64::INFINITY).to_bits(), INFINITY_BITS);
}

#[test]
fn finite_numbers_are_finite() {
    for x in [0.0, -0.0, 1.0, -1.0, 0.01, f64::MAX, f64::MIN, f64::MIN_POSITIVE, 5e-324, -5e-324] {
        assert!(of(x).is_finite(), "{x}");
        assert!(!of(x).is_nan(), "{x}");
    }
}

#[test]
fn infinities_and_nans_are_not_finite() {
    assert!(!of(f64::INFINITY).is_finite());
    assert!(!of(f64::NEG_INFINITY).is_finite());
    assert!(!of(f64::NAN).is_finite());
    assert!(!Binary64::from_bits(0xFFF8_0000_0000_0001).is_finite());
    assert!(!Binary64::from_bits(0x7FF0_0000_0000_0001).is_finite());
}

#[test]
fn only_nans_are_nans() {
    assert!(of(f64::NAN).is_nan());
    assert!(Binary64::from_bits(0x7FF0_0000_0000_0001).is_nan());
    assert!(Binary64::from_bits(0xFFFF_FFFF_FFFF_FFFF).is_nan());
    assert!(!of(f64::INFINITY).is_nan());
    assert!(!of(f64::NEG_INFINITY).is_nan());
    assert!(!of(f64::MAX).is_nan());
}

#[test]
fn above_zero_is_what_the_comparison_says() {
    let cases = [
        (0.01, true),
        (1.0, true),
        (5e-324, true),
        (f64::MIN_POSITIVE, true),
        (f64::MAX, true),
        (f64::INFINITY, true),
        (0.0, false),
        (-0.0, false),
        (-5e-324, false),
        (-1.0, false),
        (f64::NEG_INFINITY, false),
        (f64::NAN, false),
    ];
    for (x, expected) in cases {
        assert_eq!(of(x).is_above_zero(), expected, "{x}");
        assert_eq!(of(x).is_above_zero(), x > 0.0, "{x}");
    }
    assert!(!Binary64::from_bits(0x7FF0_0000_0000_0001).is_above_zero());
    assert!(!Binary64::from_bits(0xFFF8_0000_0000_0000).is_above_zero());
}

#[test]
fn predicates_agree_with_the_hardware_on_a_sweep_of_patterns() {
    let exponents: [u64; 6] = [0, 1, 1022, 1023, 2046, 2047];
    let fractions: [u64; 5] = [0, 1, 1 << 51, (1 << 52) - 2, (1 << 52) - 1];
    for sign in [0u64, 1] {
        for exponent in exponents {
            for fraction in fractions {
                let bits = (sign << 63) | (exponent << 52) | fraction;
                let x = f64::from_bits(bits);
                let b = Binary64::from_bits(bits);
                assert_eq!(b.is_finite(), x.is_finite(), "{bits:#x}");
                assert_eq!(b.is_nan(), x.is_nan(), "{bits:#x}");
                assert_eq!(b.is_above_zero(), x > 0.0, "{bits:#x}");
            }
        }
    }
}

#[test]
fn every_finite_of_nothing_is_true() {
    assert!(every_finite(&vec![]));
}

#[test]
fn every_finite_finds_the_one_that_is_not() {
    assert!(every_finite(&vec![of(0.5), of(-3.0), of(0.0)]));
    assert!(!every_finite(&vec![of(0.5), of(f64::NAN), of(0.0)]));
    assert!(!every_finite(&vec![of(f64::INFINITY)]));
    assert!(!every_finite(&vec![of(1.0), of(2.0), of(f64::NEG_INFINITY)]));
}

#[test]
fn zero_is_zero_whatever_its_sign() {
    assert!(of(0.0).is_zero());
    assert!(of(-0.0).is_zero());
    for x in [5e-324, -5e-324, 1.0, -1.0, f64::INFINITY, f64::NAN] {
        assert!(!of(x).is_zero(), "{x}");
    }
}

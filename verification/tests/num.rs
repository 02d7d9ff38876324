use keplerian_elements::num::{Num, EPSILON_BITS, INFINITY_BITS, ONE_BITS, SIGN_BIT};

fn num(x: f64) -> Num {
    Num::from_bits(x.to_bits())
}

fn samples() -> Vec<f64> {
    vec![
        0.0,
        -0.0,
        f64::from_bits(1),
        -f64::from_bits(1),
        f64::MIN_POSITIVE,
        -f64::MIN_POSITIVE,
        f64::from_bits(0x000f_ffff_ffff_ffff),
        f64::EPSILON,
        -f64::EPSILON,
        0.5,
        -0.5,
        1.0 - f64::EPSILON / 2.0,
        1.0,
        1.0 + f64::EPSILON,
        -1.0,
        -1.0 - f64::EPSILON,
        2.0,
        3.5,
        -3.5,
        6.67430e-11,
        751338500.0,
        -661208300.0,
        1.0e300,
        -1.0e300,
        f64::MAX,
        f64::MIN,
        f64::INFINITY,
        f64::NEG_INFINITY,
        f64::NAN,
        -f64::NAN,
        f64::from_bits(0x7ff0_0000_0000_0001),
        f64::from_bits(0xffff_ffff_ffff_ffff),
    ]
}

#[test]
fn order_agrees_with_the_hardware() {
    for &a in samples().iter() {
        for &b in samples().iter() {
            assert_eq!(num(a).lt(num(b)), a < b, "{a:e} < {b:e}");
            assert_eq!(num(a).le(num(b)), a <= b, "{a:e} <= {b:e}");
            assert_eq!(num(a).gt(num(b)), a > b, "{a:e} > {b:e}");
            assert_eq!(num(a).ge(num(b)), a >= b, "{a:e} >= {b:e}");
            assert_eq!(num(a).eq_value(num(b)), a == b, "{a:e} == {b:e}");
        }
    }
}

#[test]
fn classes_agree_with_the_hardware() {
    for &a in samples().iter() {
        assert_eq!(num(a).is_nan(), a.is_nan(), "{a:e}");
        assert_eq!(num(a).is_finite(), a.is_finite(), "{a:e}");
        assert_eq!(num(a).is_infinite(), a.is_infinite(), "{a:e}");
        assert_eq!(num(a).is_sign_negative(), a.is_sign_negative(), "{a:e}");
    }
}

#[test]
fn negation_and_absolute_value_agree_with_the_hardware() {
    for &a in samples().iter() {
        assert_eq!(num(a).neg().to_bits(), (-a).to_bits(), "{a:e}");
        assert_eq!(num(a).abs().to_bits(), a.abs().to_bits(), "{a:e}");
        assert_eq!(num(a).neg().neg(), num(a), "{a:e}");
    }
}

#[test]
fn clamp_agrees_with_the_hardware() {
    for &a in samples().iter() {
        let clamped = num(a).clamp_unit();
        if a.is_nan() {
            assert_eq!(clamped, num(a));
        } else {
            assert_eq!(f64::from_bits(clamped.to_bits()), a.clamp(-1.0, 1.0), "{a:e}");
        }
    }
}

#[test]
fn clamp_brings_a_ratio_back_into_the_domain_of_the_inverse_cosine() {
    assert_eq!(num(1.0000000000000002).clamp_unit(), num(1.0));
    assert_eq!(num(-1.0000000000000002).clamp_unit(), num(-1.0));
    assert_eq!(num(17.0).clamp_unit(), num(1.0));
    assert_eq!(num(f64::NEG_INFINITY).clamp_unit(), num(-1.0));
    assert_eq!(num(0.25).clamp_unit(), num(0.25));
    assert_eq!(num(-0.0).clamp_unit(), num(-0.0));
    assert_eq!(num(1.0).clamp_unit(), num(1.0));
    assert_eq!(num(-1.0).clamp_unit(), num(-1.0));
}

#[test]
fn near_zero_is_below_the_machine_epsilon() {
    assert!(num(0.0).is_near_zero());
    assert!(num(-0.0).is_near_zero());
    assert!(num(1.0e-17).is_near_zero());
    assert!(num(-1.0e-17).is_near_zero());
    assert!(num(f64::EPSILON / 2.0).is_near_zero());
    assert!(!num(f64::EPSILON).is_near_zero());
    assert!(!num(-f64::EPSILON).is_near_zero());
    assert!(!num(0.023166878).is_near_zero());
    assert!(!num(f64::NAN).is_near_zero());
    assert!(!num(f64::INFINITY).is_near_zero());
}

#[test]
fn negative_is_below_zero() {
    assert!(num(-1.0).is_negative());
    assert!(num(-f64::from_bits(1)).is_negative());
    assert!(num(f64::NEG_INFINITY).is_negative());
    assert!(!num(-0.0).is_negative());
    assert!(!num(0.0).is_negative());
    assert!(!num(2.0).is_negative());
    assert!(!num(f64::NAN).is_negative());
    assert!(!num(-f64::NAN).is_negative());
}

#[test]
fn constants_are_the_encodings_of_their_numbers() {
    assert_eq!(Num::zero().to_bits(), 0.0_f64.to_bits());
    assert_eq!(Num::one().to_bits(), 1.0_f64.to_bits());
    assert_eq!(Num::epsilon().to_bits(), f64::EPSILON.to_bits());
    assert_eq!(ONE_BITS, 1.0_f64.to_bits());
    assert_eq!(EPSILON_BITS, f64::EPSILON.to_bits());
    assert_eq!(INFINITY_BITS, f64::INFINITY.to_bits());
    assert_eq!(SIGN_BIT, (-0.0_f64).to_bits());
}

#[test]
fn encodings_pass_through_unchanged() {
    for &a in samples().iter() {
        assert_eq!(Num::from_bits(a.to_bits()).to_bits(), a.to_bits());
        assert_eq!(Num::from_bits(a.to_bits()).bits, a.to_bits());
    }
}

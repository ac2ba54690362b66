use pathtracer::estimator::{T_MAX_BITS, T_MIN_BITS};
use pathtracer::scalar::{Scalar, INFINITY_BITS, ONE_BITS, SIGN_BIT, ZERO_BITS};
use pathtracer::scene::{CLEARANCE_BITS, DIFFUSE_BELOW_BITS, METAL_BELOW_BITS};

fn s(x: f32) -> Scalar {
    Scalar::from_bits(x.to_bits())
}

fn samples() -> Vec<f32> {
    vec![
        f32::NEG_INFINITY,
        f32::MIN,
        -1.0e30,
        -2.5,
        -1.0,
        -0.001,
        -f32::MIN_POSITIVE,
        -f32::from_bits(1),
        -0.0,
        0.0,
        f32::from_bits(1),
        f32::from_bits(0x007f_ffff),
        f32::MIN_POSITIVE,
        0.001,
        0.5,
        0.999_999_94,
        1.0,
        1.000_000_1,
        2.0,
        255.99,
        1.0e30,
        f32::MAX,
        f32::INFINITY,
        f32::NAN,
        -f32::NAN,
        f32::from_bits(0x7f80_0001),
    ]
}

#[test]
fn lt_is_the_order_of_the_numbers() {
    let values = samples();
    for &a in values.iter() {
        for &b in values.iter() {
            assert_eq!(s(a).lt(s(b)), a < b, "{:?} < {:?}", a, b);
        }
    }
}

#[test]
fn gt_is_the_order_of_the_numbers() {
    let values = samples();
    for &a in values.iter() {
        for &b in values.iter() {
            assert_eq!(s(a).gt(s(b)), a > b, "{:?} > {:?}", a, b);
        }
    }
}

#[test]
fn lt_agrees_on_many_patterns() {
    let mut state: u64 = 0x2545_f491_4f6c_dd1d;
    let mut next = move || {
        state = state.wrapping_mul(6364136223846793005).wrapping_add(1442695040888963407);
        (state >> 32) as u32
    };
    for _ in 0..200_000 {
        let a = next();
        let b = next();
        let expected = f32::from_bits(a) < f32::from_bits(b);
        assert_eq!(Scalar::from_bits(a).lt(Scalar::from_bits(b)), expected, "{:#x} {:#x}", a, b);
    }
}

#[test]
fn neighbouring_patterns_are_in_order() {
    let patterns: [u32; 8] = [0, 1, 0x007f_ffff, 0x0080_0000, 0x3f7f_ffff, 0x3f80_0000, 0x7f7f_ffff, 0x7f80_0000];
    for w in patterns.windows(2) {
        assert!(Scalar::from_bits(w[0]).lt(Scalar::from_bits(w[1])));
        assert!(!Scalar::from_bits(w[1]).lt(Scalar::from_bits(w[0])));
        assert!(Scalar::from_bits(w[1] | SIGN_BIT).lt(Scalar::from_bits(w[0] | SIGN_BIT)));
    }
}

#[test]
fn the_two_zeros_are_one_number() {
    assert!(!s(-0.0).lt(s(0.0)));
    assert!(!s(0.0).lt(s(-0.0)));
    assert!(!s(-0.0).gt(s(0.0)));
    assert!(s(-0.0).lt(s(f32::from_bits(1))));
    assert!(s(-f32::from_bits(1)).lt(s(0.0)));
}

#[test]
fn nan_compares_with_nothing() {
    let nan = s(f32::NAN);
    for &a in samples().iter() {
        assert!(!nan.lt(s(a)));
        assert!(!s(a).lt(nan));
        assert!(!nan.gt(s(a)));
        assert!(!s(a).gt(nan));
    }
}

#[test]
fn is_nan_tells_the_nans() {
    assert!(s(f32::NAN).is_nan());
    assert!(s(-f32::NAN).is_nan());
    assert!(Scalar::from_bits(0x7f80_0001).is_nan());
    assert!(Scalar::from_bits(0xffff_ffff).is_nan());
    assert!(Scalar::from_bits(0x7fc0_0000).is_nan());
    assert!(!s(f32::INFINITY).is_nan());
    assert!(!s(f32::NEG_INFINITY).is_nan());
    assert!(!s(f32::MAX).is_nan());
    assert!(!s(0.0).is_nan());
    assert!(!s(-0.0).is_nan());
    for &a in samples().iter() {
        assert_eq!(s(a).is_nan(), a.is_nan());
    }
}

#[test]
fn bits_round_trip() {
    for bits in [0u32, 1, 0x3f80_0000, 0x8000_0000, 0xffff_ffff, 0x7f7f_ffff] {
        assert_eq!(Scalar::from_bits(bits).to_bits(), bits);
        assert_eq!(Scalar::from_bits(bits).bits, bits);
    }
}

#[test]
fn neg_flips_the_sign() {
    for &a in samples().iter() {
        assert_eq!(s(a).neg().to_bits(), (-a).to_bits());
        assert_eq!(s(a).neg().neg().to_bits(), a.to_bits());
    }
    assert_eq!(s(1.5).neg().to_bits(), (-1.5f32).to_bits());
    assert_eq!(s(0.0).neg().to_bits(), SIGN_BIT);
}

#[test]
fn is_between_excludes_both_ends() {
    assert!(s(1.0).is_between(s(0.0), s(2.0)));
    assert!(!s(0.0).is_between(s(0.0), s(2.0)));
    assert!(!s(2.0).is_between(s(0.0), s(2.0)));
    assert!(!s(-1.0).is_between(s(0.0), s(2.0)));
    assert!(!s(3.0).is_between(s(0.0), s(2.0)));
    assert!(!s(1.0).is_between(s(2.0), s(0.0)));
    assert!(!s(f32::NAN).is_between(s(0.0), s(2.0)));
    assert!(!s(1.0).is_between(s(f32::NAN), s(2.0)));
    assert!(!s(1.0).is_between(s(0.0), s(f32::NAN)));
    assert!(s(f32::MAX).is_between(s(0.0), s(f32::INFINITY)));
    assert!(!s(f32::INFINITY).is_between(s(0.0), s(f32::INFINITY)));
}

#[test]
fn the_named_patterns_are_the_numbers_they_name() {
    assert_eq!(ZERO_BITS, 0.0f32.to_bits());
    assert_eq!(ONE_BITS, 1.0f32.to_bits());
    assert_eq!(INFINITY_BITS, f32::INFINITY.to_bits());
    assert_eq!(SIGN_BIT, (-0.0f32).to_bits());
    assert_eq!(T_MIN_BITS, 0.001f32.to_bits());
    assert_eq!(T_MAX_BITS, f32::MAX.to_bits());
    assert_eq!(DIFFUSE_BELOW_BITS, 0.8f32.to_bits());
    assert_eq!(METAL_BELOW_BITS, 0.95f32.to_bits());
    assert_eq!(CLEARANCE_BITS, 0.9f32.to_bits());
}

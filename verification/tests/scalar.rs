use color_space::Scalar;

fn samples() -> Vec<f64> {
    vec![
        0.0,
        -0.0,
        1.0,
        -1.0,
        0.5,
        -0.5,
        2.0,
        3.141592653589793,
        -3.141592653589793,
        1e-5,
        1e-2,
        16.0,
        164.0,
        345.0,
        255.0,
        1e300,
        -1e300,
        5e-324,
        -5e-324,
        2.2250738585072014e-308,
        2.225073858507201e-308,
        1.7976931348623157e308,
        -1.7976931348623157e308,
        f64::INFINITY,
        f64::NEG_INFINITY,
        f64::NAN,
        -f64::NAN,
        f64::from_bits(0x7ff0_0000_0000_0001),
        f64::from_bits(0xfff8_0000_0000_0000),
    ]
}

fn encode(x: f64) -> Scalar {
    Scalar::from_bits(x.to_bits())
}

#[test]
fn bits_round_trip() {
    for x in samples() {
        assert_eq!(encode(x).to_bits(), x.to_bits());
    }
    assert_eq!(Scalar::from_bits(0x4059_0000_0000_0000).to_bits(), 100.0f64.to_bits());
}

#[test]
fn default_is_positive_zero() {
    assert_eq!(Scalar::default().to_bits(), 0.0f64.to_bits());
}

#[test]
fn from_u8_is_exact() {
    for n in 0..=255u8 {
        assert_eq!(Scalar::from_u8(n).to_bits(), f64::from(n).to_bits(), "n = {}", n);
    }
    assert_eq!(Scalar::from_u8(0).to_bits(), 0);
    assert_eq!(Scalar::from_u8(1).to_bits(), 0x3ff0_0000_0000_0000);
    assert_eq!(Scalar::from_u8(255).to_bits(), 0x406f_e000_0000_0000);
}

#[test]
fn is_nan_agrees_with_binary64() {
    for x in samples() {
        assert_eq!(encode(x).is_nan(), x.is_nan(), "x = {:?}", x);
    }
}

#[test]
fn is_sign_negative_agrees_with_binary64() {
    for x in samples() {
        assert_eq!(encode(x).is_sign_negative(), x.is_sign_negative(), "x = {:?}", x);
    }
    assert!(encode(-0.0).is_sign_negative());
    assert!(!encode(0.0).is_sign_negative());
}

#[test]
fn is_finite_agrees_with_binary64() {
    for x in samples() {
        assert_eq!(encode(x).is_finite(), x.is_finite(), "x = {:?}", x);
    }
}

#[test]
fn abs_agrees_with_binary64() {
    for x in samples() {
        assert_eq!(encode(x).abs().to_bits(), x.abs().to_bits(), "x = {:?}", x);
    }
    assert_eq!(encode(-2.5).abs().to_bits(), 2.5f64.to_bits());
}

#[test]
fn lt_agrees_with_binary64() {
    for x in samples() {
        for y in samples() {
            assert_eq!(encode(x).lt(encode(y)), x < y, "{:?} < {:?}", x, y);
        }
    }
}

#[test]
fn le_agrees_with_binary64() {
    for x in samples() {
        for y in samples() {
            assert_eq!(encode(x).le(encode(y)), x <= y, "{:?} <= {:?}", x, y);
        }
    }
}

#[test]
fn eq_agrees_with_binary64() {
    for x in samples() {
        for y in samples() {
            assert_eq!(encode(x).eq(encode(y)), x == y, "{:?} == {:?}", x, y);
        }
    }
}

#[test]
fn zeros_are_equal_and_nan_is_not() {
    assert!(encode(0.0).eq(encode(-0.0)));
    assert!(encode(0.0).le(encode(-0.0)));
    assert!(!encode(-0.0).lt(encode(0.0)));
    assert!(!encode(f64::NAN).eq(encode(f64::NAN)));
    assert!(!encode(f64::NAN).le(encode(1.0)));
    assert!(!encode(1.0).lt(encode(f64::NAN)));
}

#[test]
fn comparisons_order_neighbours() {
    // consecutive encodings are consecutive numbers
    let mut bits = 1.0f64.to_bits();
    for _ in 0..1000 {
        let here = Scalar::from_bits(bits);
        let next = Scalar::from_bits(bits + 1);
        assert!(here.lt(next));
        assert!(!next.le(here));
        bits += 0x0000_0100_0000_0001;
    }
    // and in reverse among the negative numbers
    let low = Scalar::from_bits((-1.0f64).to_bits() + 1);
    assert!(low.lt(encode(-1.0)));
}

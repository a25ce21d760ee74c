use jsonschema_keywords::number::{f64_bits_equal, is_integral_f64_bits, JsonNumber, NumberRepr};

fn bits(x: f64) -> u64 {
    x.to_bits()
}

#[test]
fn integral_whole_doubles() {
    for x in [0.0, -0.0, 1.0, -4.0, 3.0, 1e300, -1e300, 4503599627370496.0, 9007199254740993.0] {
        assert!(is_integral_f64_bits(bits(x)), "{} should be whole", x);
    }
}

#[test]
fn integral_fractional_doubles() {
    for x in [0.5, -0.5, 1.5, 0.1, 2.25, 4503599627370495.5, f64::MIN_POSITIVE, 5e-324] {
        assert!(!is_integral_f64_bits(bits(x)), "{} should have a fraction", x);
    }
}

#[test]
fn integral_agrees_with_fract() {
    let samples = [
        0.0, 1.0, 0.75, 123456.0, 123456.5, 1e-10, 1e10, 2.0f64.powi(52) + 1.0, 2.0f64.powi(51) + 0.5,
        -7.0, -7.25, 1e22, 1.0 / 3.0,
    ];
    for x in samples {
        assert_eq!(is_integral_f64_bits(bits(x)), x.fract() == 0.0, "{}", x);
    }
}

#[test]
fn integral_refuses_non_finite() {
    assert!(!is_integral_f64_bits(bits(f64::INFINITY)));
    assert!(!is_integral_f64_bits(bits(f64::NEG_INFINITY)));
    assert!(!is_integral_f64_bits(bits(f64::NAN)));
}

#[test]
fn double_equality_on_bits() {
    assert!(f64_bits_equal(bits(0.0), bits(-0.0)));
    assert!(f64_bits_equal(bits(1.5), bits(1.5)));
    assert!(!f64_bits_equal(bits(1.5), bits(2.5)));
    assert!(!f64_bits_equal(bits(f64::NAN), bits(f64::NAN)));
    assert!(f64_bits_equal(bits(f64::INFINITY), bits(f64::INFINITY)));
    assert!(!f64_bits_equal(bits(f64::INFINITY), bits(f64::NEG_INFINITY)));
}

#[test]
fn double_equality_symmetric_on_samples() {
    let samples = [0.0, -0.0, 1.0, -1.0, 0.1, f64::NAN, 1e308];
    for a in samples {
        for b in samples {
            assert_eq!(f64_bits_equal(bits(a), bits(b)), f64_bits_equal(bits(b), bits(a)));
            assert_eq!(f64_bits_equal(bits(a), bits(b)), a == b);
        }
    }
}

#[test]
fn number_forms() {
    let big = JsonNumber { repr: NumberRepr::PosInt(u64::MAX), f64_bits: bits(u64::MAX as f64) };
    assert!(big.is_u64());
    assert!(!big.is_i64());
    assert!(!big.is_f64());
    let small = JsonNumber { repr: NumberRepr::PosInt(7), f64_bits: bits(7.0) };
    assert!(small.is_u64() && small.is_i64());
    let neg = JsonNumber { repr: NumberRepr::NegInt(-7), f64_bits: bits(-7.0) };
    assert!(!neg.is_u64() && neg.is_i64());
    let float = JsonNumber { repr: NumberRepr::Float, f64_bits: bits(7.5) };
    assert!(float.is_f64() && !float.is_u64() && !float.is_i64());
    assert_eq!(float.as_f64_bits(), bits(7.5));
    let one = JsonNumber { repr: NumberRepr::PosInt(1), f64_bits: bits(1.0) };
    let one_float = JsonNumber { repr: NumberRepr::Float, f64_bits: bits(1.0) };
    assert!(one.f64_equals(&one_float));
    assert!(!one.f64_equals(&float));
}

use jsonschema_keywords::number::is_whole_multiple_bits;

#[test]
fn whole_multiples_agree_with_remainder() {
    let wholes = [
        0.0, -0.0, 1.0, 2.0, 3.0, 5.0, 7.0, 9.0, -9.0, 10.0, 12.0, 1024.0, 1e22, 1e300, 1e299,
        3.0 * 2f64.powi(60), 2f64.powi(60), 2f64.powi(10), 9007199254740992.0, 9007199254740993.0,
        6755399441055744.0, 4503599627370497.0,
    ];
    for x in wholes {
        for m in wholes {
            let expected = x % m == 0.0;
            assert_eq!(is_whole_multiple_bits(bits(x), bits(m)), expected, "{} % {}", x, m);
        }
    }
}

#[test]
fn whole_multiple_edge_cases() {
    assert!(is_whole_multiple_bits(bits(0.0), bits(7.0)));
    assert!(!is_whole_multiple_bits(bits(7.0), bits(0.0)));
    assert!(!is_whole_multiple_bits(bits(0.0), bits(0.0)));
    assert!(is_whole_multiple_bits(bits(-12.0), bits(4.0)));
    assert!(is_whole_multiple_bits(bits(12.0), bits(-4.0)));
    assert!(!is_whole_multiple_bits(bits(10.0), bits(4.0)));
    assert!(is_whole_multiple_bits(bits(1e300), bits(1.0)));
}

use dnp3_tester::binary64::{value_exceeds_half, value_to_i32, VALUE_HALF, VALUE_INFINITY};
use dnp3_tester::models::{VALUE_ONE, VALUE_ZERO};

fn samples() -> Vec<f64> {
    let mut out = vec![
        0.0,
        -0.0,
        0.5,
        0.5000000000000001,
        0.49999999999999994,
        1.0,
        -1.0,
        0.999999,
        1.5,
        -1.5,
        2.0,
        2.5,
        -2.5,
        42.9,
        -42.9,
        250.99,
        2147483646.5,
        2147483647.0,
        2147483647.5,
        2147483648.0,
        -2147483648.0,
        -2147483648.5,
        -2147483649.0,
        4294967296.0,
        1e10,
        -1e10,
        1e300,
        -1e300,
        f64::MIN_POSITIVE,
        5e-324,
        -5e-324,
        f64::MAX,
        f64::MIN,
        f64::EPSILON,
        f64::INFINITY,
        f64::NEG_INFINITY,
        f64::NAN,
        -f64::NAN,
    ];
    // a spread of bit patterns, every exponent among them
    let mut bits: u64 = 0x0123_4567_89AB_CDEF;
    for _ in 0..20000 {
        bits = bits.wrapping_mul(6364136223846793005).wrapping_add(1442695040888963407);
        out.push(f64::from_bits(bits));
        // the same significand near the range of 32-bit integers
        let near = (bits & 0x800F_FFFF_FFFF_FFFF) | ((1000 + (bits >> 52) % 64) << 52);
        out.push(f64::from_bits(near));
    }
    out
}

#[test]
fn named_patterns_are_the_numbers_they_name() {
    assert_eq!(f64::from_bits(VALUE_ZERO), 0.0);
    assert_eq!(f64::from_bits(VALUE_ONE), 1.0);
    assert_eq!(f64::from_bits(VALUE_HALF), 0.5);
    assert_eq!(f64::from_bits(VALUE_INFINITY), f64::INFINITY);
}

#[test]
fn above_one_half_is_the_comparison_of_numbers() {
    for x in samples() {
        assert_eq!(value_exceeds_half(x.to_bits()), x > 0.5, "{:e} ({:#018x})", x, x.to_bits());
    }
    assert!(!value_exceeds_half(0.5f64.to_bits()));
    assert!(value_exceeds_half(1.0f64.to_bits()));
    assert!(!value_exceeds_half(f64::NAN.to_bits()));
}

#[test]
fn truncation_is_the_cast_of_numbers() {
    for x in samples() {
        assert_eq!(value_to_i32(x.to_bits()), x as i32, "{:e} ({:#018x})", x, x.to_bits());
    }
    assert_eq!(value_to_i32(42.9f64.to_bits()), 42);
    assert_eq!(value_to_i32((-42.9f64).to_bits()), -42);
    assert_eq!(value_to_i32(1e10f64.to_bits()), i32::MAX);
    assert_eq!(value_to_i32((-1e10f64).to_bits()), i32::MIN);
    assert_eq!(value_to_i32(f64::NAN.to_bits()), 0);
}

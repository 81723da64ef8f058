use gaeta::Binary64;

fn enc(x: f64) -> Binary64 {
    Binary64::from_bits(x.to_bits())
}

fn table() -> Vec<f64> {
    vec![
        0.0,
        -0.0,
        1.0,
        -1.0,
        0.5,
        0.999999,
        1.9999999,
        10.0,
        10.9,
        -10.9,
        100.0,
        f64::MIN_POSITIVE,
        f64::from_bits(1),
        -f64::from_bits(1),
        f64::from_bits(0x000f_ffff_ffff_ffff),
        4503599627370496.0,
        4503599627370497.0,
        9007199254740993.0,
        2147483647.0,
        2147483648.0,
        9223372036854774784.0,
        9223372036854775808.0,
        1e19,
        1e300,
        f64::MAX,
        f64::MIN,
        f64::INFINITY,
        f64::NEG_INFINITY,
        f64::NAN,
        f64::from_bits(0xfff8_0000_0000_0000),
        f64::from_bits(0x7ff0_0000_0000_0001),
        f64::from_bits(0xffff_ffff_ffff_ffff),
    ]
}

fn next(seed: &mut u64) -> u64 {
    *seed = seed.wrapping_mul(6364136223846793005).wrapping_add(1442695040888963407);
    let high = *seed >> 11;
    *seed = seed.wrapping_mul(6364136223846793005).wrapping_add(1442695040888963407);
    (high << 32) ^ (*seed >> 16)
}

#[test]
fn bits_round_trip() {
    for x in table() {
        assert_eq!(enc(x).to_bits(), x.to_bits());
    }
    assert_eq!(Binary64::zero().to_bits(), 0);
    assert_eq!(Binary64::zero().to_bits(), 0.0f64.to_bits());
}

#[test]
fn is_nan_agrees_with_the_machine() {
    for x in table() {
        assert_eq!(enc(x).is_nan(), x.is_nan(), "{:?}", x);
    }
    assert!(enc(f64::NAN).is_nan());
    assert!(!enc(f64::INFINITY).is_nan());
    assert!(!enc(f64::NEG_INFINITY).is_nan());
    assert!(!enc(0.0).is_nan());
}

#[test]
fn same_value_agrees_with_the_machine() {
    for a in table() {
        for b in table() {
            assert_eq!(enc(a).same_value(enc(b)), a == b, "{:?} {:?}", a, b);
        }
    }
}

#[test]
fn same_value_edge_cases() {
    assert!(enc(0.0).same_value(enc(-0.0)));
    assert!(enc(-0.0).same_value(enc(0.0)));
    assert!(!enc(f64::NAN).same_value(enc(f64::NAN)));
    assert!(!enc(f64::NAN).same_value(enc(0.0)));
    assert!(!enc(0.0).same_value(enc(f64::NAN)));
    assert!(enc(f64::INFINITY).same_value(enc(f64::INFINITY)));
    assert!(!enc(f64::INFINITY).same_value(enc(f64::NEG_INFINITY)));
    assert!(!enc(1.0).same_value(enc(-1.0)));
    assert!(enc(10.0).same_value(enc(10.0)));
    assert!(!enc(0.0).same_value(enc(f64::from_bits(1))));
}

#[test]
fn is_non_negative_agrees_with_the_machine() {
    for x in table() {
        assert_eq!(enc(x).is_non_negative(), x >= 0.0, "{:?}", x);
    }
    assert!(enc(0.0).is_non_negative());
    assert!(enc(-0.0).is_non_negative());
    assert!(enc(f64::INFINITY).is_non_negative());
    assert!(!enc(f64::NEG_INFINITY).is_non_negative());
    assert!(!enc(f64::NAN).is_non_negative());
    assert!(!enc(-f64::from_bits(1)).is_non_negative());
}

#[test]
fn truncate_agrees_with_the_machine_from_zero_up() {
    for x in table() {
        if x >= 0.0 {
            assert_eq!(enc(x).truncate(), x as isize, "{:?}", x);
        }
    }
}

#[test]
fn truncate_exact_values() {
    assert_eq!(enc(0.0).truncate(), 0);
    assert_eq!(enc(-0.0).truncate(), 0);
    assert_eq!(enc(0.5).truncate(), 0);
    assert_eq!(enc(0.999999).truncate(), 0);
    assert_eq!(enc(1.0).truncate(), 1);
    assert_eq!(enc(1.9999999).truncate(), 1);
    assert_eq!(enc(10.0).truncate(), 10);
    assert_eq!(enc(10.9).truncate(), 10);
    assert_eq!(enc(11.11111111111111).truncate(), 11);
    assert_eq!(enc(f64::from_bits(1)).truncate(), 0);
    assert_eq!(enc(f64::MIN_POSITIVE).truncate(), 0);
    assert_eq!(enc(4503599627370497.0).truncate(), 4503599627370497);
    assert_eq!(enc(f64::MAX).truncate(), isize::MAX);
    assert_eq!(enc(f64::INFINITY).truncate(), isize::MAX);
    assert_eq!(enc(9223372036854775808.0).truncate(), isize::MAX);
}

#[test]
fn truncate_takes_the_magnitude() {
    assert_eq!(enc(-2.5).truncate(), 2);
    assert_eq!(enc(-10.9).truncate(), 10);
    assert_eq!(enc(f64::NEG_INFINITY).truncate(), isize::MAX);
    assert_eq!(enc(f64::NAN).truncate(), isize::MAX);
}

#[test]
fn powers_of_two_truncate_exactly() {
    let mut x: f64 = 1.0;
    let mut n: u64 = 1;
    for _ in 0..62 {
        assert_eq!(enc(x).truncate(), n as isize);
        assert_eq!(enc(x + 0.5).truncate(), (x + 0.5) as isize);
        assert_eq!(enc(x * 1.5).truncate(), (x * 1.5) as isize);
        x = x * 2.0;
        n = n * 2;
    }
}

#[test]
fn random_patterns_agree_with_the_machine() {
    let mut seed: u64 = 0x2545_f491_4f6c_dd1d;
    let mut before = Binary64::from_bits(0);
    for _ in 0..200_000 {
        let bits = next(&mut seed);
        let x = f64::from_bits(bits);
        let value = Binary64::from_bits(bits);
        assert_eq!(value.is_nan(), x.is_nan(), "{:#x}", bits);
        assert_eq!(value.is_non_negative(), x >= 0.0, "{:#x}", bits);
        assert_eq!(value.same_value(value), x == x, "{:#x}", bits);
        let y = f64::from_bits(before.to_bits());
        assert_eq!(value.same_value(before), x == y, "{:#x}", bits);
        if x >= 0.0 {
            assert_eq!(value.truncate(), x as isize, "{:#x}", bits);
        }
        before = value;
    }
}

#[test]
fn random_moderate_values_truncate_as_the_machine_does() {
    let mut seed: u64 = 0x9e37_79b9_7f4a_7c15;
    for _ in 0..200_000 {
        let raw = next(&mut seed);
        let exponent = 1000 + (raw >> 52) % 100;
        let bits = (exponent << 52) | (raw & 0x000f_ffff_ffff_ffff);
        let x = f64::from_bits(bits);
        assert!(x >= 0.0);
        assert_eq!(Binary64::from_bits(bits).truncate(), x as isize, "{:#x}", bits);
    }
}

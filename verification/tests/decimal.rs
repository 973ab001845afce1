use water_rocket::decimal::format_six_decimals;

fn text(x: f64) -> String {
    format_six_decimals(x.to_bits())
}

fn expected(x: f64) -> String {
    format!("{:.6}", x)
}

#[test]
fn plain_numbers() {
    assert_eq!(text(0.0), "0.000000");
    assert_eq!(text(1.0), "1.000000");
    assert_eq!(text(1.5), "1.500000");
    assert_eq!(text(-2.25), "-2.250000");
    assert_eq!(text(0.001), "0.001000");
    assert_eq!(text(9.81), "9.810000");
    assert_eq!(text(101325.0), "101325.000000");
    assert_eq!(text(411589.07819257624), "411589.078193");
    assert_eq!(text(123456789.123456789), "123456789.123457");
    assert_eq!(text(0.1), "0.100000");
    assert_eq!(text(0.3), "0.300000");
    assert_eq!(text(2.0 / 3.0), "0.666667");
    assert_eq!(text(1.0 / 3.0), "0.333333");
    assert_eq!(text(0.999999), "0.999999");
    assert_eq!(text(0.9999994), "0.999999");
    assert_eq!(text(0.9999995), "1.000000");
    assert_eq!(text(0.9999996), "1.000000");
    assert_eq!(text(9.9999999), "10.000000");
    assert_eq!(text(99999.9999999), "100000.000000");
}

#[test]
fn signs_and_zeros() {
    assert_eq!(text(-0.0), "-0.000000");
    assert_eq!(text(-1e-9), "-0.000000");
    assert_eq!(text(1e-9), "0.000000");
    assert_eq!(text(-1.0), "-1.000000");
    assert_eq!(text(5e-324), "0.000000");
    assert_eq!(text(-5e-324), "-0.000000");
    assert_eq!(text(f64::MIN_POSITIVE), "0.000000");
    assert_eq!(text(4e-7), "0.000000");
    assert_eq!(text(6e-7), "0.000001");
    assert_eq!(text(-6e-7), "-0.000001");
}

#[test]
fn what_is_no_finite_number() {
    assert_eq!(text(f64::NAN), "NaN");
    assert_eq!(text(-f64::NAN), "NaN");
    assert_eq!(format_six_decimals(0x7FF0_0000_0000_0001), "NaN");
    assert_eq!(format_six_decimals(0xFFFF_FFFF_FFFF_FFFF), "NaN");
    assert_eq!(text(f64::INFINITY), "inf");
    assert_eq!(text(f64::NEG_INFINITY), "-inf");
}

#[test]
fn ties_go_to_the_even_digit() {
    // A tie needs a number of millionths that ends in a half: an odd
    // multiple of 1/128.
    assert_eq!(text(1.0 / 128.0), "0.007812");
    assert_eq!(text(3.0 / 128.0), "0.023438");
    assert_eq!(text(5.0 / 128.0), "0.039062");
    assert_eq!(text(7.0 / 128.0), "0.054688");
    assert_eq!(text(-1.0 / 128.0), "-0.007812");
    assert_eq!(text(-3.0 / 128.0), "-0.023438");
    assert_eq!(text(1000.0 + 1.0 / 128.0), "1000.007812");
    for m in 0..2000 {
        let x = (2 * m + 1) as f64 / 128.0;
        assert_eq!(text(x), expected(x));
        assert_eq!(text(-x), expected(-x));
    }
}

#[test]
fn large_numbers_have_all_their_digits() {
    assert_eq!(text(4503599627370496.0), "4503599627370496.000000");
    assert_eq!(text(9007199254740992.0), "9007199254740992.000000");
    assert_eq!(text(9007199254740993.0), "9007199254740992.000000");
    assert_eq!(text(1e16), "10000000000000000.000000");
    assert_eq!(text(1e22), "10000000000000000000000.000000");
    assert_eq!(text(1e23), "99999999999999991611392.000000");
    assert_eq!(text(-1e23), "-99999999999999991611392.000000");
    assert_eq!(text(2.0f64.powi(100)), "1267650600228229401496703205376.000000");
    assert_eq!(text(f64::MAX), expected(f64::MAX));
    assert_eq!(text(f64::MAX).len(), 309 + 7);
    assert!(text(f64::MAX).starts_with("17976931348623157081452742373170435679807056752584"));
    assert_eq!(text(f64::MIN), expected(f64::MIN));
    for e in 0..1024 {
        let x = 2.0f64.powi(e);
        assert_eq!(text(x), expected(x));
        assert_eq!(text(x * 1.9999999999999998), expected(x * 1.9999999999999998));
        assert_eq!(text(x * 1.31415926), expected(x * 1.31415926));
    }
}

#[test]
fn small_numbers() {
    for e in 0..1080 {
        let x = 2.0f64.powi(-e);
        assert_eq!(text(x), expected(x));
        assert_eq!(text(-x), expected(-x));
        assert_eq!(text(x * 1.5), expected(x * 1.5));
        assert_eq!(text(x * 1.9999999999999998), expected(x * 1.9999999999999998));
    }
    for k in 0..3000 {
        let x = k as f64 * 1e-7;
        assert_eq!(text(x), expected(x));
        let y = k as f64 * 0.5e-6;
        assert_eq!(text(y), expected(y));
    }
}

#[test]
fn every_kind_of_bit_pattern() {
    // A fixed sequence of bit patterns that visits all exponents.
    let mut state: u64 = 0x9E37_79B9_7F4A_7C15;
    for _ in 0..200_000 {
        state ^= state << 13;
        state ^= state >> 7;
        state ^= state << 17;
        let x = f64::from_bits(state);
        assert_eq!(format_six_decimals(state), expected(x), "{state:#x}");
    }
}

#[test]
fn numbers_of_a_flight() {
    let mut state: u64 = 0x0123_4567_89AB_CDEF;
    for _ in 0..200_000 {
        state ^= state << 13;
        state ^= state >> 7;
        state ^= state << 17;
        let unit = (state >> 11) as f64 / (1u64 << 53) as f64;
        for scale in [1e-6, 1e-3, 1.0, 50.0, 1000.0, 500000.0] {
            let x = (unit - 0.5) * scale;
            assert_eq!(text(x), expected(x));
        }
    }
}

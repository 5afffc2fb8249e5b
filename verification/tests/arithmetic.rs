use zvm::vm::float_bits::{d2i, d2l, dneg, f2i, f2l, fneg};
use zvm::vm::numeric::{
    double_word, i2b, i2c, i2l, i2s, iadd, idiv, imul, ineg, irem, isub, l2i, ladd, ldiv, lmul,
    lneg, lrem, lsub, signed_byte, signed_int, signed_long, signed_short, unsigned_short,
};

#[test]
fn iadd_wraps_around() {
    assert_eq!(iadd(i32::MAX, 1), i32::MIN);
    assert_eq!(iadd(i32::MIN, -1), i32::MAX);
    assert_eq!(iadd(-1, 1), 0);
    assert_eq!(iadd(2, 3), 5);
}

#[test]
fn isub_and_imul_wrap_around() {
    assert_eq!(isub(i32::MIN, 1), i32::MAX);
    assert_eq!(isub(7, 9), -2);
    assert_eq!(imul(0x4000_0000, 4), 0);
    assert_eq!(imul(65536, 65537), 65536);
    assert_eq!(imul(i32::MIN, -1), i32::MIN);
    assert_eq!(imul(-3, 7), -21);
}

#[test]
fn ineg_of_the_least_int_is_itself() {
    assert_eq!(ineg(i32::MIN), i32::MIN);
    assert_eq!(ineg(5), -5);
    assert_eq!(ineg(0), 0);
    assert_eq!(lneg(i64::MIN), i64::MIN);
    assert_eq!(lneg(-9), 9);
}

#[test]
fn int_arithmetic_agrees_with_wrapping_arithmetic() {
    let samples = [0, 1, -1, 2, -2, 7, -7, 1000, i32::MAX, i32::MIN, i32::MAX - 1, 0x1234_5678];
    for a in samples {
        for b in samples {
            assert_eq!(iadd(a, b), a.wrapping_add(b));
            assert_eq!(isub(a, b), a.wrapping_sub(b));
            assert_eq!(imul(a, b), a.wrapping_mul(b));
            if b != 0 {
                assert_eq!(idiv(a, b), Some(a.wrapping_div(b)));
                assert_eq!(irem(a, b), Some(a.wrapping_rem(b)));
            }
        }
        assert_eq!(ineg(a), a.wrapping_neg());
    }
}

#[test]
fn long_arithmetic_agrees_with_wrapping_arithmetic() {
    let samples = [0i64, 1, -1, 3, -3, 1 << 40, i64::MAX, i64::MIN, 0x0123_4567_89AB_CDEF];
    for a in samples {
        for b in samples {
            assert_eq!(ladd(a, b), a.wrapping_add(b));
            assert_eq!(lsub(a, b), a.wrapping_sub(b));
            assert_eq!(lmul(a, b), a.wrapping_mul(b));
            if b != 0 {
                assert_eq!(ldiv(a, b), Some(a.wrapping_div(b)));
                assert_eq!(lrem(a, b), Some(a.wrapping_rem(b)));
            }
        }
        assert_eq!(lneg(a), a.wrapping_neg());
    }
}

#[test]
fn idiv_rounds_toward_zero() {
    assert_eq!(idiv(-7, 2), Some(-3));
    assert_eq!(idiv(7, -2), Some(-3));
    assert_eq!(idiv(-7, -2), Some(3));
    assert_eq!(idiv(i32::MIN, -1), Some(i32::MIN));
    assert_eq!(irem(-7, 2), Some(-1));
    assert_eq!(irem(7, -2), Some(1));
    assert_eq!(irem(i32::MIN, -1), Some(0));
    assert_eq!(ldiv(-7, 2), Some(-3));
    assert_eq!(ldiv(i64::MIN, -1), Some(i64::MIN));
    assert_eq!(lrem(i64::MIN, -1), Some(0));
}

#[test]
fn division_by_zero_gives_nothing() {
    assert_eq!(idiv(1, 0), None);
    assert_eq!(irem(1, 0), None);
    assert_eq!(ldiv(1, 0), None);
    assert_eq!(lrem(1, 0), None);
}

#[test]
fn narrowing_takes_the_low_bits() {
    assert_eq!(l2i(0x1_0000_0005), 5);
    assert_eq!(l2i(0xFFFF_FFFF), -1);
    assert_eq!(l2i(i64::MIN), 0);
    assert_eq!(i2b(0x1FF), -1);
    assert_eq!(i2b(128), -128);
    assert_eq!(i2b(127), 127);
    assert_eq!(i2c(-1), 65535);
    assert_eq!(i2c(0x1_0041), 0x41);
    assert_eq!(i2s(0x8000), -32768);
    assert_eq!(i2s(0x1_7FFF), 32767);
    assert_eq!(i2l(-5), -5i64);
    for v in [0, 1, -1, 255, 256, 65535, 65536, i32::MAX, i32::MIN, -129, 0x1234_5678] {
        assert_eq!(i2b(v), v as i8 as i32);
        assert_eq!(i2c(v), v as u16 as i32);
        assert_eq!(i2s(v), v as i16 as i32);
    }
}

#[test]
fn operand_bytes_are_big_endian() {
    assert_eq!(signed_byte(0xFF), -1);
    assert_eq!(signed_byte(0x7F), 127);
    assert_eq!(signed_byte(0x80), -128);
    assert_eq!(unsigned_short(0x12, 0x34), 0x1234);
    assert_eq!(unsigned_short(0xFF, 0xFF), 65535);
    assert_eq!(signed_short(0xFF, 0xFF), -1);
    assert_eq!(signed_short(0x80, 0x00), -32768);
    assert_eq!(signed_short(0x7F, 0xFF), 32767);
    assert_eq!(double_word(0x0123_4567, 0x89AB_CDEF), 0x0123_4567_89AB_CDEF);
    assert_eq!(signed_long(u64::MAX), -1);
    assert_eq!(signed_long(5), 5);
    assert_eq!(signed_int(u32::MAX), -1);
    assert_eq!(signed_int(0x8000_0000), i32::MIN);
}

fn float_samples() -> Vec<f32> {
    vec![
        0.0,
        -0.0,
        0.5,
        -0.5,
        0.99999994,
        1.0,
        -1.0,
        1.5,
        -1.5,
        2.5,
        -2.5,
        123456.789,
        -123456.789,
        16777216.0,
        2147483520.0,
        2147483648.0,
        -2147483648.0,
        -2147483904.0,
        4294967296.0,
        9.223372e18,
        9.223373e18,
        -9.223372e18,
        -9.223373e18,
        1e30,
        -1e30,
        f32::MAX,
        f32::MIN,
        f32::MIN_POSITIVE,
        1e-45,
        f32::INFINITY,
        f32::NEG_INFINITY,
        f32::NAN,
    ]
}

fn double_samples() -> Vec<f64> {
    vec![
        0.0,
        -0.0,
        0.5,
        -0.5,
        0.9999999999999999,
        1.0,
        -1.0,
        1.5,
        -2.5,
        123456789.987654321,
        -123456789.987654321,
        2147483646.5,
        2147483647.0,
        2147483647.5,
        2147483648.0,
        -2147483648.0,
        -2147483648.5,
        -2147483649.0,
        9007199254740992.0,
        9.223372036854775e18,
        9.223372036854776e18,
        -9.223372036854775e18,
        -9.223372036854776e18,
        -9.223372036854778e18,
        1e300,
        -1e300,
        f64::MAX,
        f64::MIN,
        f64::MIN_POSITIVE,
        5e-324,
        f64::INFINITY,
        f64::NEG_INFINITY,
        f64::NAN,
    ]
}

#[test]
fn float_to_integer_saturates() {
    assert_eq!(f2i(f32::NAN.to_bits()), 0);
    assert_eq!(f2i(f32::INFINITY.to_bits()), i32::MAX);
    assert_eq!(f2i(f32::NEG_INFINITY.to_bits()), i32::MIN);
    assert_eq!(f2i(3.0e9f32.to_bits()), i32::MAX);
    assert_eq!(f2i((-3.0e9f32).to_bits()), i32::MIN);
    assert_eq!(f2i(2.9f32.to_bits()), 2);
    assert_eq!(f2i((-2.9f32).to_bits()), -2);
    assert_eq!(f2l(f32::NAN.to_bits()), 0);
    assert_eq!(f2l(1e30f32.to_bits()), i64::MAX);
    assert_eq!(f2l((-1e30f32).to_bits()), i64::MIN);
    assert_eq!(f2l(3.0e9f32.to_bits()), 3_000_000_000);
    for x in float_samples() {
        assert_eq!(f2i(x.to_bits()), x as i32, "f2i of {}", x);
        assert_eq!(f2l(x.to_bits()), x as i64, "f2l of {}", x);
    }
}

#[test]
fn double_to_integer_saturates() {
    assert_eq!(d2i(f64::NAN.to_bits()), 0);
    assert_eq!(d2i(1e10f64.to_bits()), i32::MAX);
    assert_eq!(d2i((-1e10f64).to_bits()), i32::MIN);
    assert_eq!(d2i(2147483647.5f64.to_bits()), i32::MAX);
    assert_eq!(d2i(2147483646.5f64.to_bits()), 2147483646);
    assert_eq!(d2i((-7.99f64).to_bits()), -7);
    assert_eq!(d2l(f64::NAN.to_bits()), 0);
    assert_eq!(d2l(f64::INFINITY.to_bits()), i64::MAX);
    assert_eq!(d2l(f64::NEG_INFINITY.to_bits()), i64::MIN);
    assert_eq!(d2l(1e10f64.to_bits()), 10_000_000_000);
    for x in double_samples() {
        assert_eq!(d2i(x.to_bits()), x as i32, "d2i of {}", x);
        assert_eq!(d2l(x.to_bits()), x as i64, "d2l of {}", x);
    }
}

#[test]
fn negation_flips_the_sign_bit() {
    for x in float_samples() {
        assert_eq!(fneg(x.to_bits()), (-x).to_bits());
    }
    for x in double_samples() {
        assert_eq!(dneg(x.to_bits()), (-x).to_bits());
    }
    assert_eq!(fneg(0), 0x8000_0000);
    assert_eq!(dneg(0x8000_0000_0000_0000), 0);
}

#[test]
fn conversions_agree_with_the_casts_on_many_patterns() {
    let mut state: u64 = 0x2545_F491_4F6C_DD1D;
    for _ in 0..200_000 {
        state = state.wrapping_mul(6364136223846793005).wrapping_add(1442695040888963407);
        let bits32 = (state >> 32) as u32;
        let x = f32::from_bits(bits32);
        assert_eq!(f2i(bits32), x as i32, "f2i of {:#x}", bits32);
        assert_eq!(f2l(bits32), x as i64, "f2l of {:#x}", bits32);
        let bits64 = state ^ (state << 13);
        let y = f64::from_bits(bits64);
        assert_eq!(d2i(bits64), y as i32, "d2i of {:#x}", bits64);
        assert_eq!(d2l(bits64), y as i64, "d2l of {:#x}", bits64);
    }
    // Every exponent of a float, with a few fractions each.
    for exponent in 0..=255u32 {
        for fraction in [0u32, 1, 0x40_0000, 0x7F_FFFF, 0x12_3456] {
            for sign in [0u32, 0x8000_0000] {
                let bits = sign | (exponent << 23) | fraction;
                let x = f32::from_bits(bits);
                assert_eq!(f2i(bits), x as i32);
                assert_eq!(f2l(bits), x as i64);
            }
        }
    }
    // Every exponent of a double, with a few fractions each.
    for exponent in 0..=2047u64 {
        for fraction in [0u64, 1, 1 << 51, (1 << 52) - 1, 0x1234_5678_9ABC] {
            for sign in [0u64, 1 << 63] {
                let bits = sign | (exponent << 52) | fraction;
                let y = f64::from_bits(bits);
                assert_eq!(d2i(bits), y as i32);
                assert_eq!(d2l(bits), y as i64);
            }
        }
    }
}

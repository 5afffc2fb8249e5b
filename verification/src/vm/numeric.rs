use vstd::prelude::*;

verus! {

/// `x` modulo 2^32, read as a signed 32-bit number.
pub open spec fn wrap_i32(x: int) -> i32 {
    let m = x % 0x1_0000_0000;
    if m >= 0x8000_0000 {
        (m - 0x1_0000_0000) as i32
    } else {
        m as i32
    }
}

/// `x` modulo 2^64, read as a signed 64-bit number.
pub open spec fn wrap_i64(x: int) -> i64 {
    let m = x % 0x1_0000_0000_0000_0000;
    if m >= 0x8000_0000_0000_0000 {
        (m - 0x1_0000_0000_0000_0000) as i64
    } else {
        m as i64
    }
}

/// `wrap_i32(x)` is the one 32-bit signed number that differs from `x` by a
/// multiple of 2^32.
pub proof fn lemma_wrap_i32(x: int)
    ensures
        -0x8000_0000 <= wrap_i32(x) < 0x8000_0000,
        (x - wrap_i32(x)) % 0x1_0000_0000 == 0,
        -0x8000_0000 <= x < 0x8000_0000 ==> wrap_i32(x) == x,
{
}

/// `wrap_i64(x)` is the one 64-bit signed number that differs from `x` by a
/// multiple of 2^64.
pub proof fn lemma_wrap_i64(x: int)
    ensures
        -0x8000_0000_0000_0000 <= wrap_i64(x) < 0x8000_0000_0000_0000,
        (x - wrap_i64(x)) % 0x1_0000_0000_0000_0000 == 0,
        -0x8000_0000_0000_0000 <= x < 0x8000_0000_0000_0000 ==> wrap_i64(x) == x,
{
}

/// Negation wraps at one number only: the least int is its own negative.
pub proof fn lemma_negation_wraps(a: i32, b: i64)
    ensures
        wrap_i32(-a) == if a == i32::MIN {
            i32::MIN as int
        } else {
            -a
        },
        wrap_i64(-b) == if b == i64::MIN {
            i64::MIN as int
        } else {
            -b
        },
{
}

/// The quotient of `a` by `b` rounded toward zero (for `b != 0`).
pub open spec fn trunc_div(a: int, b: int) -> int {
    if a >= 0 && b > 0 {
        a / b
    } else if a < 0 && b < 0 {
        (-a) / (-b)
    } else if a < 0 {
        -((-a) / b)
    } else {
        -(a / (-b))
    }
}

/// The remainder that goes with [`trunc_div`]: it has the sign of `a`.
pub open spec fn trunc_rem(a: int, b: int) -> int {
    a - b * trunc_div(a, b)
}

pub fn iadd(a: i32, b: i32) -> (r: i32)
    ensures
        r == wrap_i32(a + b),
{
    a.wrapping_add(b)
}

pub fn isub(a: i32, b: i32) -> (r: i32)
    ensures
        r == wrap_i32(a - b),
{
    a.wrapping_sub(b)
}

pub fn imul(a: i32, b: i32) -> (r: i32)
    ensures
        r == wrap_i32(a * b),
{
    a.wrapping_mul(b)
}

pub fn ineg(a: i32) -> (r: i32)
    ensures
        r == wrap_i32(-a),
{
    0i32.wrapping_sub(a)
}

/// Rounded toward zero, the quotient of two 32-bit numbers is a 33-bit
/// number at most, and only `MIN / -1` leaves the 32-bit range.
pub proof fn lemma_trunc_div_range(a: int, b: int, min: int)
    requires
        min < 0,
        min <= a < -min,
        min <= b < -min,
        b != 0,
    ensures
        min <= trunc_div(a, b) <= -min,
        trunc_div(a, b) == -min <==> (a == min && b == -1),
        a == min && b == -1 ==> trunc_rem(a, b) == 0,
        min < trunc_rem(a, b) < -min,
{
    let pa = if a < 0 { -a } else { a };
    let pb = if b < 0 { -b } else { b };
    let q = pa / pb;
    assert(0 <= q <= pa && (q == pa ==> pb == 1 || pa == 0) && pa == pb * q + pa % pb && 0 <= pa
        % pb < pb) by (nonlinear_arith)
        requires
            pa >= 0,
            pb > 0,
            q == pa / pb,
    ;
    if a >= 0 && b > 0 {
        assert(b * q == pb * q);
    } else if a < 0 && b < 0 {
        assert(b * q == -(pb * q)) by (nonlinear_arith)
            requires
                b == -pb,
        ;
    } else if a < 0 {
        assert(b * (-q) == -(pb * q)) by (nonlinear_arith)
            requires
                b == pb,
        ;
    } else {
        assert(b * (-q) == pb * q) by (nonlinear_arith)
            requires
                b == -pb,
        ;
    }
}

/// `trunc_div` and `trunc_rem` written out by the signs of their arguments.
pub proof fn lemma_trunc_by_sign(a: int, b: int)
    requires
        b != 0,
    ensures
        a == 0 ==> trunc_div(a, b) == 0 && trunc_rem(a, b) == 0,
        a > 0 && b > 0 ==> trunc_rem(a, b) == a % b,
        a < 0 && b < 0 ==> trunc_rem(a, b) == ((a * -1) % (b * -1)) * -1,
        a < 0 && b > 0 ==> trunc_rem(a, b) == ((a * -1) % b) * -1,
        a > 0 && b < 0 ==> trunc_rem(a, b) == a % (b * -1),
{
    let pa = if a < 0 { -a } else { a };
    let pb = if b < 0 { -b } else { b };
    let q = pa / pb;
    assert(pa == pb * q + pa % pb && (pa == 0 ==> q == 0)) by (nonlinear_arith)
        requires
            pa >= 0,
            pb > 0,
            q == pa / pb,
    ;
    if a >= 0 && b > 0 {
        assert(b * q == pb * q);
    } else if a < 0 && b < 0 {
        assert(b * q == -(pb * q)) by (nonlinear_arith)
            requires
                b == -pb,
        ;
    } else if a < 0 {
        assert(b * (-q) == -(pb * q)) by (nonlinear_arith)
            requires
                b == pb,
        ;
    } else {
        assert(b * (-q) == pb * q) by (nonlinear_arith)
            requires
                b == -pb,
        ;
    }
}

pub fn idiv(a: i32, b: i32) -> (r: Option<i32>)
    ensures
        b == 0 ==> r is None,
        b != 0 ==> r == Some(wrap_i32(trunc_div(a as int, b as int))),
{
    if b == 0 {
        None
    } else {
        proof {
            lemma_trunc_div_range(a as int, b as int, i32::MIN as int);
            lemma_trunc_by_sign(a as int, b as int);
        }
        match a.checked_div(b) {
            Some(q) => Some(q),
            None => Some(i32::MIN),
        }
    }
}

pub fn irem(a: i32, b: i32) -> (r: Option<i32>)
    ensures
        b == 0 ==> r is None,
        b != 0 ==> r == Some(wrap_i32(trunc_rem(a as int, b as int))),
{
    if b == 0 {
        None
    } else {
        proof {
            lemma_trunc_div_range(a as int, b as int, i32::MIN as int);
            lemma_trunc_by_sign(a as int, b as int);
        }
        match a.checked_rem(b) {
            Some(m) => Some(m),
            None => Some(0),
        }
    }
}

pub fn ladd(a: i64, b: i64) -> (r: i64)
    ensures
        r == wrap_i64(a + b),
{
    a.wrapping_add(b)
}

pub fn lsub(a: i64, b: i64) -> (r: i64)
    ensures
        r == wrap_i64(a - b),
{
    a.wrapping_sub(b)
}

pub fn lmul(a: i64, b: i64) -> (r: i64)
    ensures
        r == wrap_i64(a * b),
{
    a.wrapping_mul(b)
}

pub fn lneg(a: i64) -> (r: i64)
    ensures
        r == wrap_i64(-a),
{
    0i64.wrapping_sub(a)
}

pub fn ldiv(a: i64, b: i64) -> (r: Option<i64>)
    ensures
        b == 0 ==> r is None,
        b != 0 ==> r == Some(wrap_i64(trunc_div(a as int, b as int))),
{
    if b == 0 {
        None
    } else {
        proof {
            lemma_trunc_div_range(a as int, b as int, i64::MIN as int);
            lemma_trunc_by_sign(a as int, b as int);
        }
        match a.checked_div(b) {
            Some(q) => Some(q),
            None => Some(i64::MIN),
        }
    }
}

pub fn lrem(a: i64, b: i64) -> (r: Option<i64>)
    ensures
        b == 0 ==> r is None,
        b != 0 ==> r == Some(wrap_i64(trunc_rem(a as int, b as int))),
{
    if b == 0 {
        None
    } else {
        proof {
            lemma_trunc_div_range(a as int, b as int, i64::MIN as int);
            lemma_trunc_by_sign(a as int, b as int);
        }
        match a.checked_rem(b) {
            Some(m) => Some(m),
            None => Some(0),
        }
    }
}

/// `x` modulo 2^8, read as a signed 8-bit number.
pub open spec fn wrap_i8(x: int) -> int {
    let m = x % 0x100;
    if m >= 0x80 {
        m - 0x100
    } else {
        m
    }
}

/// `x` modulo 2^16, read as a signed 16-bit number.
pub open spec fn wrap_i16(x: int) -> int {
    let m = x % 0x1_0000;
    if m >= 0x8000 {
        m - 0x1_0000
    } else {
        m
    }
}

/// The unsigned 16-bit number with high byte `high` and low byte `low`.
pub open spec fn be_u16(high: u8, low: u8) -> int {
    high * 256 + low
}

/// int to long: the same number.
pub fn i2l(a: i32) -> (r: i64)
    ensures
        r == a,
{
    a as i64
}

/// long to int: the low 32 bits.
pub fn l2i(a: i64) -> (r: i32)
    ensures
        r == wrap_i32(a as int),
{
    let r = #[verifier::truncate] (a as i32);
    assert(r == wrap_i32(a as int)) by {
        let m = (a as int) % 0x1_0000_0000;
        assert((a as i32) as int == if (a as int) % 0x1_0000_0000 >= 0x8000_0000 {
            (a as int) % 0x1_0000_0000 - 0x1_0000_0000
        } else {
            (a as int) % 0x1_0000_0000
        }) by (bit_vector);
    }
    r
}

/// int to byte: the low 8 bits, sign-extended.
pub fn i2b(a: i32) -> (r: i32)
    ensures
        r == wrap_i8(a as int),
{
    let low = #[verifier::truncate] (a as i8);
    assert(low as int == if (a as int) % 0x100 >= 0x80 {
        (a as int) % 0x100 - 0x100
    } else {
        (a as int) % 0x100
    }) by (bit_vector)
        requires
            low == a as i8,
    ;
    low as i32
}

/// int to char: the low 16 bits, zero-extended.
pub fn i2c(a: i32) -> (r: i32)
    ensures
        r == (a as int) % 0x1_0000,
{
    let low = #[verifier::truncate] (a as u16);
    assert(low as int == (a as int) % 0x1_0000) by (bit_vector)
        requires
            low == a as u16,
    ;
    low as i32
}

/// int to short: the low 16 bits, sign-extended.
pub fn i2s(a: i32) -> (r: i32)
    ensures
        r == wrap_i16(a as int),
{
    let low = #[verifier::truncate] (a as i16);
    assert(low as int == if (a as int) % 0x1_0000 >= 0x8000 {
        (a as int) % 0x1_0000 - 0x1_0000
    } else {
        (a as int) % 0x1_0000
    }) by (bit_vector)
        requires
            low == a as i16,
    ;
    low as i32
}

/// A byte read as a signed 8-bit number.
pub fn signed_byte(byte: u8) -> (r: i32)
    ensures
        r == wrap_i8(byte as int),
{
    if byte >= 0x80 {
        byte as i32 - 0x100
    } else {
        byte as i32
    }
}

/// Two bytes, high byte first, read as an unsigned 16-bit number.
pub fn unsigned_short(high: u8, low: u8) -> (r: u16)
    ensures
        r == be_u16(high, low),
{
    high as u16 * 256 + low as u16
}

/// Two bytes, high byte first, read as a signed 16-bit number.
pub fn signed_short(high: u8, low: u8) -> (r: i32)
    ensures
        r == wrap_i16(be_u16(high, low)),
{
    let value: i32 = high as i32 * 256 + low as i32;
    if value >= 0x8000 {
        value - 0x1_0000
    } else {
        value
    }
}

/// The 64-bit pattern whose high half is `high` and whose low half is `low`.
pub open spec fn join_halves(high: u32, low: u32) -> int {
    high * 0x1_0000_0000 + low
}

/// The bit pattern of a 64-bit constant from its two halves.
pub fn double_word(high: u32, low: u32) -> (r: u64)
    ensures
        r == join_halves(high, low),
{
    high as u64 * 0x1_0000_0000 + low as u64
}

/// An unsigned 64-bit pattern read as a signed number.
pub fn signed_long(bits: u64) -> (r: i64)
    ensures
        r == wrap_i64(bits as int),
{
    if bits >= 0x8000_0000_0000_0000 {
        ((bits - 0x8000_0000_0000_0000) as i64) + i64::MIN
    } else {
        bits as i64
    }
}

/// An unsigned 32-bit pattern read as a signed number.
pub fn signed_int(bits: u32) -> (r: i32)
    ensures
        r == wrap_i32(bits as int),
{
    if bits >= 0x8000_0000 {
        ((bits - 0x8000_0000) as i32) + i32::MIN
    } else {
        bits as i32
    }
}

} // verus!

use vstd::prelude::*;

use crate::bits::{i32_of, signed32, u32_of, wrap32};

verus! {

/// The quotient of a division that rounds toward zero.
pub open spec fn quotient(x: int, y: int) -> int {
    if x >= 0 && y > 0 {
        x / y
    } else if x < 0 && y < 0 {
        (-x) / (-y)
    } else if x < 0 {
        -((-x) / y)
    } else {
        -(x / (-y))
    }
}

/// The remainder of a division that rounds toward zero: it has the sign of
/// the dividend.
pub open spec fn remainder(x: int, y: int) -> int {
    x - y * quotient(x, y)
}

/// The low five bits of a shift's source: how far the shift goes.
pub open spec fn shift_amount(source: u32) -> u32 {
    source % 32
}

/// A shift to the left that fills with zeros.
pub open spec fn shifted_left(x: u32, source: u32) -> u32 {
    x << shift_amount(source)
}

/// A shift to the right that fills with zeros.
pub open spec fn shifted_right(x: u32, source: u32) -> u32 {
    x >> shift_amount(source)
}

/// A shift to the right that fills with the sign bit.
pub open spec fn shifted_right_signed(x: u32, source: u32) -> u32 {
    ((x as i32) >> shift_amount(source)) as u32
}

/// The upper word of a product of up to 64 bits.
pub open spec fn upper_word(product: int) -> u32 {
    wrap32(product / 0x1_0000_0000)
}

/// What `DIV` gives: all ones for a division by zero, else the quotient that
/// rounds toward zero, modulo 2^32.
pub open spec fn div_result(a: u32, b: u32) -> u32 {
    if b == 0 {
        0xffff_ffff
    } else {
        wrap32(quotient(signed32(a), signed32(b)))
    }
}

/// What `DIVU` gives: all ones for a division by zero, else the quotient.
pub open spec fn divu_result(a: u32, b: u32) -> u32 {
    if b == 0 {
        0xffff_ffff
    } else {
        a / b
    }
}

/// What `REM` gives: the dividend for a division by zero, else the
/// remainder with the sign of the dividend.
pub open spec fn rem_result(a: u32, b: u32) -> u32 {
    if b == 0 {
        a
    } else {
        wrap32(remainder(signed32(a), signed32(b)))
    }
}

/// What `REMU` gives: the dividend for a division by zero, else the
/// remainder.
pub open spec fn remu_result(a: u32, b: u32) -> u32 {
    if b == 0 {
        a
    } else {
        a % b
    }
}

/// The remainder that rounding toward zero leaves is the remainder of the
/// magnitudes, with the sign of the dividend.
pub proof fn remainder_by_sign(x: int, y: int)
    requires
        y != 0,
    ensures
        remainder(x, y) == (if x >= 0 && y > 0 {
            x % y
        } else if x < 0 && y < 0 {
            -((-x) % (-y))
        } else if x < 0 {
            -((-x) % y)
        } else {
            x % (-y)
        }),
{
    let ax: int = if x < 0 { -x } else { x };
    let ay: int = if y < 0 { -y } else { y };
    vstd::arithmetic::div_mod::lemma_fundamental_div_mod(ax, ay);
    let q = ax / ay;
    assert(ay * q == y * (if y < 0 { -q } else { q })) by (nonlinear_arith)
        requires
            ay == (if y < 0 { -y } else { y }),
    ;
    assert(y * (-q) == -(y * q)) by (nonlinear_arith);
}

/// The low five bits of `source`.
pub fn shamt(source: u32) -> (n: u32)
    ensures
        n == shift_amount(source),
        n < 32,
{
    assert(source & 0x1f == source % 32) by (bit_vector);
    source & 0x1f
}

/// Shifts left by the low five bits of `source`.
pub fn sll(x: u32, source: u32) -> (r: u32)
    ensures
        r == shifted_left(x, source),
{
    x << shamt(source)
}

/// Shifts right by the low five bits of `source`, filling with zeros.
pub fn srl(x: u32, source: u32) -> (r: u32)
    ensures
        r == shifted_right(x, source),
{
    x >> shamt(source)
}

/// Shifts right by the low five bits of `source`, filling with the sign
/// bit.
pub fn sra(x: u32, source: u32) -> (r: u32)
    ensures
        r == shifted_right_signed(x, source),
{
    #[verifier::truncate]
    (((#[verifier::truncate] (x as i32)) >> shamt(source)) as u32)
}

/// The sum, modulo 2^32.
pub fn sum(a: u32, b: u32) -> (r: u32)
    ensures
        r == wrap32(a + b),
{
    a.wrapping_add(b)
}

/// The sum of a word and a signed offset, modulo 2^32.
pub fn offset_by(a: u32, imm: i32) -> (r: u32)
    ensures
        r == wrap32(a + imm),
{
    a.wrapping_add(u32_of(imm))
}

/// The difference, modulo 2^32.
pub fn difference(a: u32, b: u32) -> (r: u32)
    ensures
        r == wrap32(a - b),
{
    a.wrapping_sub(b)
}

/// Signed less-than, as 1 or 0.
pub fn slt(a: u32, b: u32) -> (r: u32)
    ensures
        r == (if signed32(a) < signed32(b) { 1u32 } else { 0u32 }),
{
    if i32_of(a) < i32_of(b) {
        1
    } else {
        0
    }
}

/// Unsigned less-than, as 1 or 0.
pub fn sltu(a: u32, b: u32) -> (r: u32)
    ensures
        r == (if a < b { 1u32 } else { 0u32 }),
{
    if a < b {
        1
    } else {
        0
    }
}

/// What is above bit 31 does not show in the low word: the low words of the
/// signed and of the unsigned product are the same.
pub proof fn low_word_of_product(a: u32, b: u32)
    ensures
        wrap32(signed32(a) * signed32(b)) == wrap32(a * b),
{
    let m = 0x1_0000_0000int;
    let ka: int = if a < 0x8000_0000 { 0 } else { 1 };
    let kb: int = if b < 0x8000_0000 { 0 } else { 1 };
    assert(signed32(a) * signed32(b) == a * b + m * (ka * kb * m - ka * b - kb * a))
        by (nonlinear_arith)
        requires
            signed32(a) == a - ka * m,
            signed32(b) == b - kb * m,
    ;
    vstd::arithmetic::div_mod::lemma_mod_multiples_vanish(
        ka * kb * m - ka * b - kb * a,
        a * b,
        m,
    );
}

/// The low word of the product.
pub fn mul_low(a: u32, b: u32) -> (r: u32)
    ensures
        r == wrap32(signed32(a) * signed32(b)),
{
    proof {
        low_word_of_product(a, b);
        assert(0 <= a * b) by (nonlinear_arith);
    }
    a.wrapping_mul(b)
}

/// The upper word of the product of two signed words.
pub fn mulh(a: u32, b: u32) -> (r: u32)
    ensures
        r == upper_word(signed32(a) * signed32(b)),
{
    let x: i64 = i32_of(a) as i64;
    let y: i64 = i32_of(b) as i64;
    assert(-0x4000_0000_0000_0000 <= x * y <= 0x4000_0000_0000_0000) by (nonlinear_arith)
        requires
            -0x8000_0000 <= x < 0x8000_0000,
            -0x8000_0000 <= y < 0x8000_0000,
    ;
    let product: i64 = x * y;
    high_word(product)
}

/// The upper word of the product of a signed and an unsigned word.
pub fn mulhsu(a: u32, b: u32) -> (r: u32)
    ensures
        r == upper_word(signed32(a) * b),
{
    let x: i64 = i32_of(a) as i64;
    let y: i64 = b as i64;
    assert(-0x8000_0000_0000_0000 <= x * y <= 0x7fff_ffff_ffff_ffff) by (nonlinear_arith)
        requires
            -0x8000_0000 <= x < 0x8000_0000,
            0 <= y < 0x1_0000_0000,
    ;
    let product: i64 = x * y;
    high_word(product)
}

/// The upper word of the product of two unsigned words.
pub fn mulhu(a: u32, b: u32) -> (r: u32)
    ensures
        r == upper_word(a * b),
{
    let x: u64 = a as u64;
    let y: u64 = b as u64;
    assert(0 <= x * y <= 0xffff_fffe_0000_0001) by (nonlinear_arith)
        requires
            0 <= x < 0x1_0000_0000,
            0 <= y < 0x1_0000_0000,
    ;
    let product: u64 = x * y;
    let high: u64 = product >> 32;
    assert(high == product / 0x1_0000_0000 && high < 0x1_0000_0000) by (bit_vector)
        requires
            high == product >> 32,
    ;
    high as u32
}

/// Bits 63 to 32 of a signed product.
fn high_word(product: i64) -> (r: u32)
    ensures
        r == upper_word(product as int),
{
    let high: i64 = product >> 32;
    assert(high == product / 0x1_0000_0000 && -0x8000_0000 <= high < 0x8000_0000) by (bit_vector)
        requires
            high == product >> 32,
    ;
    #[verifier::truncate]
    let narrowed: i32 = (high as i32);
    u32_of(narrowed)
}

/// Signed division. Division by zero gives all ones; the one quotient that
/// does not fit, of the least number by -1, gives the least number.
pub fn div(a: u32, b: u32) -> (r: u32)
    ensures
        r == div_result(a, b),
{
    let x = i32_of(a);
    let y = i32_of(b);
    match x.checked_div(y) {
        Some(q) => u32_of(q),
        None => if y == 0 {
            0xffff_ffff
        } else {
            0x8000_0000
        },
    }
}

/// Unsigned division. Division by zero gives all ones.
pub fn divu(a: u32, b: u32) -> (r: u32)
    ensures
        r == divu_result(a, b),
{
    if b == 0 {
        0xffff_ffff
    } else {
        a / b
    }
}

/// The remainder of signed division. By zero it is the dividend; of the
/// least number by -1 it is 0.
pub fn rem(a: u32, b: u32) -> (r: u32)
    ensures
        r == rem_result(a, b),
{
    let x = i32_of(a);
    let y = i32_of(b);
    proof {
        if y != 0 {
            remainder_by_sign(x as int, y as int);
        }
    }
    match x.checked_rem(y) {
        Some(q) => u32_of(q),
        None => if y == 0 {
            a
        } else {
            0
        },
    }
}

/// The remainder of unsigned division. By zero it is the dividend.
pub fn remu(a: u32, b: u32) -> (r: u32)
    ensures
        r == remu_result(a, b),
{
    if b == 0 {
        a
    } else {
        a % b
    }
}

} // verus!

use vstd::prelude::*;

verus! {

/// The number that a byte stands for when read as two's complement.
pub open spec fn signed8(x: u8) -> int {
    if x < 0x80 {
        x as int
    } else {
        x as int - 0x100
    }
}

/// The number that a halfword stands for when read as two's complement.
pub open spec fn signed16(x: u16) -> int {
    if x < 0x8000 {
        x as int
    } else {
        x as int - 0x1_0000
    }
}

/// The number that a word stands for when read as two's complement.
pub open spec fn signed32(x: u32) -> int {
    if x < 0x8000_0000 {
        x as int
    } else {
        x as int - 0x1_0000_0000
    }
}

/// The byte that stands for a number from -128 to 127.
pub open spec fn unsigned8(x: int) -> u8 {
    if x >= 0 {
        x as u8
    } else {
        (x + 0x100) as u8
    }
}

/// The halfword that stands for a number from -32768 to 32767.
pub open spec fn unsigned16(x: int) -> u16 {
    if x >= 0 {
        x as u16
    } else {
        (x + 0x1_0000) as u16
    }
}

/// The word that stands for an integer: the integer modulo 2^32.
pub open spec fn wrap32(x: int) -> u32 {
    (x % 0x1_0000_0000) as u32
}

/// How `as` reinterprets between the signed and unsigned types of one width.
pub proof fn reinterpretations(a: u8, b: i8, c: u16, d: i16, e: u32, f: i32)
    by (bit_vector)
    ensures
        (a as i8) as int == signed8(a),
        b as u8 == unsigned8(b as int),
        (c as i16) as int == signed16(c),
        d as u16 == unsigned16(d as int),
        (e as i32) as int == signed32(e),
        signed32(f as u32) == f as int,
        f as u32 == wrap32(f as int),
{
}

/// A byte read as two's complement.
pub fn i8_of(x: u8) -> (r: i8)
    ensures
        r as int == signed8(x),
{
    proof {
        reinterpretations(x, 0, 0, 0, 0, 0);
    }
    #[verifier::truncate]
    (x as i8)
}

/// The byte that stands for a signed byte.
pub fn u8_of(x: i8) -> (r: u8)
    ensures
        r == unsigned8(x as int),
{
    proof {
        reinterpretations(0, x, 0, 0, 0, 0);
    }
    #[verifier::truncate]
    (x as u8)
}

/// A halfword read as two's complement.
pub fn i16_of(x: u16) -> (r: i16)
    ensures
        r as int == signed16(x),
{
    proof {
        reinterpretations(0, 0, x, 0, 0, 0);
    }
    #[verifier::truncate]
    (x as i16)
}

/// The halfword that stands for a signed halfword.
pub fn u16_of(x: i16) -> (r: u16)
    ensures
        r == unsigned16(x as int),
{
    proof {
        reinterpretations(0, 0, 0, x, 0, 0);
    }
    #[verifier::truncate]
    (x as u16)
}

/// A word read as two's complement.
pub fn i32_of(x: u32) -> (r: i32)
    ensures
        r as int == signed32(x),
{
    proof {
        reinterpretations(0, 0, 0, 0, x, 0);
    }
    #[verifier::truncate]
    (x as i32)
}

/// The word that stands for a signed word.
pub fn u32_of(x: i32) -> (r: u32)
    ensures
        signed32(r) == x as int,
        r == wrap32(x as int),
{
    proof {
        reinterpretations(0, 0, 0, 0, 0, x);
    }
    #[verifier::truncate]
    (x as u32)
}

/// The low byte of a word.
pub fn low8(x: u32) -> (r: u8)
    ensures
        r == x % 0x100,
{
    assert(x & 0xff == x % 0x100) by (bit_vector);
    (x & 0xff) as u8
}

/// The low halfword of a word.
pub fn low16(x: u32) -> (r: u16)
    ensures
        r == x % 0x1_0000,
{
    assert(x & 0xffff == x % 0x1_0000) by (bit_vector);
    (x & 0xffff) as u16
}

} // verus!

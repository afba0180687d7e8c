use vstd::prelude::*;

use crate::register::Register;
use crate::text::{decimal, decimal_text, hex, hex_text, joined};

verus! {

/// Why a word is not an instruction.
#[derive(Clone, Copy, Debug, PartialEq, Eq, Structural)]
pub enum ParseError {
    InvalidRegister(u32),
    InvalidInstruction(u32),
    InvalidOpcode(u8),
    InvalidFormat(u32),
}

/// The fields of an instruction word, laid out by its format. Immediates are
/// assembled into place but not yet sign-extended.
#[derive(Clone, Copy, Debug, PartialEq, Eq, Structural)]
pub enum InstructionType {
    RType { rd: Register, rs1: Register, rs2: Register, funct3: u8, funct7: u8, opcode: u8 },
    IType { rd: Register, rs1: Register, imm: u32, funct3: u8, opcode: u8 },
    SType { rs1: Register, rs2: Register, imm: u32, funct3: u8, opcode: u8 },
    BType { rs1: Register, rs2: Register, imm: u32, funct3: u8, opcode: u8 },
    UType { rd: Register, imm: u32, opcode: u8 },
    JType { rd: Register, imm: u32, opcode: u8 },
}

/// The little-endian word that starts a byte sequence.
pub open spec fn word_of(bytes: Seq<u8>) -> u32 {
    (bytes[0] as int + 0x100 * bytes[1] as int + 0x1_0000 * bytes[2] as int + 0x100_0000
        * bytes[3] as int) as u32
}

/// A mask of `width` low bits.
pub open spec fn low_mask(width: u32) -> u32 {
    if width >= 32 {
        0xffff_ffffu32
    } else {
        ((1u32 << width) - 1) as u32
    }
}

/// Bits `start` to `end` of `num`, both ends included, moved down to bit 0.
pub open spec fn bits(num: u32, start: u32, end: u32) -> u32 {
    (num >> start) & low_mask((end - start + 1) as u32)
}

/// The opcode: bits 6 to 0.
pub open spec fn opcode_of(w: u32) -> u8 {
    (w & 0x7f) as u8
}

/// The destination register: bits 11 to 7.
pub open spec fn rd_of(w: u32) -> Register {
    Register::numbered(bits(w, 7, 11) as int)
}

/// The first source register: bits 19 to 15.
pub open spec fn rs1_of(w: u32) -> Register {
    Register::numbered(bits(w, 15, 19) as int)
}

/// The second source register: bits 24 to 20.
pub open spec fn rs2_of(w: u32) -> Register {
    Register::numbered(bits(w, 20, 24) as int)
}

/// The function field of three bits: bits 14 to 12.
pub open spec fn funct3_of(w: u32) -> u8 {
    bits(w, 12, 14) as u8
}

/// The function field of seven bits: bits 31 to 25.
pub open spec fn funct7_of(w: u32) -> u8 {
    bits(w, 25, 31) as u8
}

/// imm[11:0] of an I-type word.
pub open spec fn imm_i(w: u32) -> u32 {
    bits(w, 20, 31)
}

/// imm[11:5] and imm[4:0] of an S-type word, joined.
pub open spec fn imm_s(w: u32) -> u32 {
    (bits(w, 25, 31) << 5) | bits(w, 7, 11)
}

/// imm[12], imm[11], imm[10:5] and imm[4:1] of a B-type word, joined; bit 0 is 0.
pub open spec fn imm_b(w: u32) -> u32 {
    (bits(w, 31, 31) << 12) | (bits(w, 7, 7) << 11) | (bits(w, 25, 30) << 5) | (bits(w, 8, 11)
        << 1)
}

/// imm[31:12] of a U-type word, as a 20-bit number.
pub open spec fn imm_u(w: u32) -> u32 {
    bits(w, 12, 31)
}

/// imm[20], imm[19:12], imm[11] and imm[10:1] of a J-type word, joined; bit 0 is 0.
pub open spec fn imm_j(w: u32) -> u32 {
    (bits(w, 31, 31) << 20) | (bits(w, 12, 19) << 12) | (bits(w, 20, 20) << 11) | (bits(
        w,
        21,
        30,
    ) << 1)
}

/// The format that a word's opcode selects, with the word's fields.
pub open spec fn format_of(w: u32) -> Result<InstructionType, ParseError> {
    let opcode = opcode_of(w);
    if opcode == 0b0110011 {
        Ok(
            InstructionType::RType {
                rd: rd_of(w),
                rs1: rs1_of(w),
                rs2: rs2_of(w),
                funct3: funct3_of(w),
                funct7: funct7_of(w),
                opcode,
            },
        )
    } else if opcode == 0b0000011 || opcode == 0b0010011 || opcode == 0b1100111 || opcode
        == 0b1110011 || opcode == 0b0001111 {
        Ok(
            InstructionType::IType {
                rd: rd_of(w),
                rs1: rs1_of(w),
                imm: imm_i(w),
                funct3: funct3_of(w),
                opcode,
            },
        )
    } else if opcode == 0b0100011 {
        Ok(
            InstructionType::SType {
                rs1: rs1_of(w),
                rs2: rs2_of(w),
                imm: imm_s(w),
                funct3: funct3_of(w),
                opcode,
            },
        )
    } else if opcode == 0b1100011 {
        Ok(
            InstructionType::BType {
                rs1: rs1_of(w),
                rs2: rs2_of(w),
                imm: imm_b(w),
                funct3: funct3_of(w),
                opcode,
            },
        )
    } else if opcode == 0b0110111 || opcode == 0b0010111 {
        Ok(InstructionType::UType { rd: rd_of(w), imm: imm_u(w), opcode })
    } else if opcode == 0b1101111 {
        Ok(InstructionType::JType { rd: rd_of(w), imm: imm_j(w), opcode })
    } else {
        Err(ParseError::InvalidOpcode(opcode))
    }
}

/// The sizes of the fields that the decoder cuts out of a word.
pub proof fn field_bounds(w: u32)
    by (bit_vector)
    ensures
        w & 0x7f < 128,
        bits(w, 7, 11) < 32,
        bits(w, 15, 19) < 32,
        bits(w, 20, 24) < 32,
        bits(w, 12, 14) < 8,
        bits(w, 25, 31) < 128,
        bits(w, 20, 31) < 0x1000,
        bits(w, 12, 31) < 0x10_0000,
        imm_s(w) < 0x1000,
        imm_b(w) < 0x2000,
        imm_j(w) < 0x20_0000,
{
}

/// Joins four bytes, lowest first, into a word.
pub fn join_bytes(b0: u8, b1: u8, b2: u8, b3: u8) -> (w: u32)
    ensures
        w == b0 as int + 0x100 * b1 as int + 0x1_0000 * b2 as int + 0x100_0000 * b3 as int,
{
    let w: u32 = (b0 as u32) | ((b1 as u32) << 8) | ((b2 as u32) << 16) | ((b3 as u32) << 24);
    assert(w == b0 as int + 0x100 * b1 as int + 0x1_0000 * b2 as int + 0x100_0000 * b3 as int)
        by (bit_vector)
        requires
            w == (b0 as u32) | ((b1 as u32) << 8) | ((b2 as u32) << 16) | ((b3 as u32) << 24),
    ;
    w
}

/// The word in the first four bytes, read little-endian.
pub fn bytes_to_u32(bytes: &[u8]) -> (w: u32)
    requires
        bytes@.len() >= 4,
    ensures
        w == word_of(bytes@),
{
    join_bytes(bytes[0], bytes[1], bytes[2], bytes[3])
}

/// This returns a range of bits, inclusive on both ends, as specified in a datasheet
pub fn bitrange(num: u32, start: usize, end: usize) -> (r: u32)
    requires
        start <= end < 32,
    ensures
        r == bits(num, start as u32, end as u32),
{
    let width: usize = end - start + 1;
    let mask: u32 = if width >= 32 {
        0xffff_ffff
    } else {
        assert((1u32 << width) >= 1) by (bit_vector)
            requires
                width < 32,
        ;
        (1u32 << width) - 1
    };
    (num >> start) & mask
}

impl InstructionType {
    /// Cuts the first four bytes into the fields of the format that the
    /// opcode selects.
    pub fn from_bytes(bytes: &[u8]) -> (r: Result<InstructionType, ParseError>)
        requires
            bytes@.len() >= 4,
        ensures
            r == format_of(word_of(bytes@)),
    {
        let combined = bytes_to_u32(bytes);
        proof {
            field_bounds(combined);
        }
        let opcode: u8 = (combined & 0x7f) as u8;
        let rd_bits = bitrange(combined, 7, 11);
        let rs1_bits = bitrange(combined, 15, 19);
        let rs2_bits = bitrange(combined, 20, 24);
        let rd = match Register::from_num(rd_bits) {
            Some(reg) => reg,
            None => { return Err(ParseError::InvalidRegister(rd_bits)); },
        };
        let rs1 = match Register::from_num(rs1_bits) {
            Some(reg) => reg,
            None => { return Err(ParseError::InvalidRegister(rs1_bits)); },
        };
        let rs2 = match Register::from_num(rs2_bits) {
            Some(reg) => reg,
            None => { return Err(ParseError::InvalidRegister(rs2_bits)); },
        };
        let funct3: u8 = bitrange(combined, 12, 14) as u8;
        let funct7: u8 = bitrange(combined, 25, 31) as u8;
        match opcode {
            0b0110011 => Ok(InstructionType::RType { rd, rs1, rs2, funct3, funct7, opcode }),
            0b0000011 | 0b0010011 | 0b1100111 | 0b1110011 | 0b0001111 => Ok(
                InstructionType::IType { rd, rs1, imm: bitrange(combined, 20, 31), funct3, opcode },
            ),
            0b0100011 => Ok(
                InstructionType::SType {
                    rs1,
                    rs2,
                    imm: (bitrange(combined, 25, 31) << 5) | bitrange(combined, 7, 11),
                    funct3,
                    opcode,
                },
            ),
            0b1100011 => Ok(
                InstructionType::BType {
                    rs1,
                    rs2,
                    imm: (bitrange(combined, 31, 31) << 12) | (bitrange(combined, 7, 7) << 11) | (
                    bitrange(combined, 25, 30) << 5) | (bitrange(combined, 8, 11) << 1),
                    funct3,
                    opcode,
                },
            ),
            0b0110111 | 0b0010111 => Ok(
                InstructionType::UType { rd, imm: bitrange(combined, 12, 31), opcode },
            ),
            0b1101111 => Ok(
                InstructionType::JType {
                    rd,
                    imm: (bitrange(combined, 31, 31) << 20) | (bitrange(combined, 12, 19) << 12)
                        | (bitrange(combined, 20, 20) << 11) | (bitrange(combined, 21, 30) << 1),
                    opcode,
                },
            ),
            op => Err(ParseError::InvalidOpcode(op)),
        }
    }
}

impl ParseError {
    /// What the error says.
    pub open spec fn message_text(self) -> Seq<char> {
        match self {
            ParseError::InvalidRegister(n) => "Invalid register: "@ + decimal_text(n as nat),
            ParseError::InvalidInstruction(w) => "Invalid instruction: "@ + hex_text(w),
            ParseError::InvalidOpcode(op) => "Invalid opcode: "@ + hex_text(op as u32),
            ParseError::InvalidFormat(w) => "Invalid format: "@ + hex_text(w),
        }
    }

    /// What the error says.
    pub fn message(&self) -> (r: String)
        ensures
            r@ == self.message_text(),
    {
        match self {
            ParseError::InvalidRegister(n) => joined(
                "Invalid register: ",
                decimal(*n as u128).as_str(),
            ),
            ParseError::InvalidInstruction(w) => joined("Invalid instruction: ", hex(*w).as_str()),
            ParseError::InvalidOpcode(op) => joined("Invalid opcode: ", hex(*op as u32).as_str()),
            ParseError::InvalidFormat(w) => joined("Invalid format: ", hex(*w).as_str()),
        }
    }
}

} // verus!

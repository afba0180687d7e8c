use vstd::prelude::*;

use crate::decode::{bitrange, bits, bytes_to_u32, format_of, word_of, InstructionType, ParseError};
use crate::bits::{u32_of, wrap32};
use crate::register::Register;
use crate::text::{hex, hex_text, push_repeated, repeated};

verus! {

/// A sign-extended immediate operand.
pub type Immediate = i32;

/// A decoded RV32IM instruction with its operands. The destination register
/// comes first; stores and branches name `rs1`, `rs2` and the offset.
#[allow(non_camel_case_types)]
#[derive(Clone, Copy, Debug, PartialEq, Eq, Structural)]
pub enum Operation {
    ADDI(Register, Register, Immediate),
    SLTI(Register, Register, Immediate),
    SLTIU(Register, Register, Immediate),
    ANDI(Register, Register, Immediate),
    ORI(Register, Register, Immediate),
    XORI(Register, Register, Immediate),
    SLLI(Register, Register, Immediate),
    SRLI(Register, Register, Immediate),
    SRAI(Register, Register, Immediate),
    LUI(Register, Immediate),
    AUIPC(Register, Immediate),
    ADD(Register, Register, Register),
    SLTU(Register, Register, Register),
    SLT(Register, Register, Register),
    AND(Register, Register, Register),
    OR(Register, Register, Register),
    XOR(Register, Register, Register),
    SLL(Register, Register, Register),
    SRL(Register, Register, Register),
    SUB(Register, Register, Register),
    SRA(Register, Register, Register),
    NOP,
    JAL(Register, Immediate),
    JALR(Register, Register, Immediate),
    BEQ(Register, Register, Immediate),
    BNE(Register, Register, Immediate),
    BLT(Register, Register, Immediate),
    BLTU(Register, Register, Immediate),
    BGE(Register, Register, Immediate),
    BGEU(Register, Register, Immediate),
    LW(Register, Register, Immediate),
    LH(Register, Register, Immediate),
    LHU(Register, Register, Immediate),
    LB(Register, Register, Immediate),
    LBU(Register, Register, Immediate),
    SW(Register, Register, Immediate),
    SH(Register, Register, Immediate),
    SB(Register, Register, Immediate),
    ECALL,
    EBREAK,
    FENCE,
    HINT,
    MUL(Register, Register, Register),
    MULH(Register, Register, Register),
    MULHSU(Register, Register, Register),
    MULHU(Register, Register, Register),
    DIV(Register, Register, Register),
    DIVU(Register, Register, Register),
    REM(Register, Register, Register),
    REMU(Register, Register, Register),
}

/// The low `bits` bits of `num`, read as a two's-complement number of that
/// width: the top bit of the field is copied into every bit above it.
pub open spec fn sign_extended(num: u32, bits: u32) -> i32 {
    ((num << ((32 - bits) as u32)) as i32) >> ((32 - bits) as u32)
}

/// What `sign_extended` is as a number: the field's value, less 2^bits where
/// the field's top bit is set.
pub proof fn sign_extended_value(num: u32, bits: u32)
    by (bit_vector)
    requires
        1 <= bits <= 32,
    ensures
        ({
            let modulus = 1u64 << (bits as u64);
            let low = (num as u64) & ((modulus - 1) as u64);
            sign_extended(num, bits) as int == (if 2 * low >= modulus {
                low - modulus
            } else {
                low as int
            })
        }),
{
}

// sign-extend imm field and convert to i32
pub fn sign_extend(num: u32, bits: u8) -> (res: Immediate)
    requires
        1 <= bits <= 32,
    ensures
        res == sign_extended(num, bits as u32),
{
    let shamt: u8 = 32 - bits;
    let res: Immediate = ((num << shamt) as i32) >> shamt;
    res
}

/// The instruction that a word's fields select.
pub open spec fn select(t: InstructionType, w: u32) -> Result<Operation, ParseError> {
    match t {
        InstructionType::RType { rd, rs1, rs2, funct3, funct7, opcode } => {
            match (funct3, funct7) {
                (0, 0) => Ok(Operation::ADD(rd, rs1, rs2)),
                (0, 32) => Ok(Operation::SUB(rd, rs1, rs2)),
                (1, 0) => Ok(Operation::SLL(rd, rs1, rs2)),
                (2, 0) => Ok(Operation::SLT(rd, rs1, rs2)),
                (3, 0) => Ok(Operation::SLTU(rd, rs1, rs2)),
                (4, 0) => Ok(Operation::XOR(rd, rs1, rs2)),
                (5, 0) => Ok(Operation::SRL(rd, rs1, rs2)),
                (5, 32) => Ok(Operation::SRA(rd, rs1, rs2)),
                (6, 0) => Ok(Operation::OR(rd, rs1, rs2)),
                (7, 0) => Ok(Operation::AND(rd, rs1, rs2)),
                (0, 1) => Ok(Operation::MUL(rd, rs1, rs2)),
                (1, 1) => Ok(Operation::MULH(rd, rs1, rs2)),
                (2, 1) => Ok(Operation::MULHSU(rd, rs1, rs2)),
                (3, 1) => Ok(Operation::MULHU(rd, rs1, rs2)),
                (4, 1) => Ok(Operation::DIV(rd, rs1, rs2)),
                (5, 1) => Ok(Operation::DIVU(rd, rs1, rs2)),
                (6, 1) => Ok(Operation::REM(rd, rs1, rs2)),
                (7, 1) => Ok(Operation::REMU(rd, rs1, rs2)),
                _ => Err(ParseError::InvalidInstruction(w)),
            }
        },
        InstructionType::IType { rd, rs1, imm, funct3, opcode } => {
            let imm_s = sign_extended(imm, 12);
            let shamt = bits(imm, 0, 4) as i32;
            match opcode {
                0b1100111 => match funct3 {
                    0 => Ok(Operation::JALR(rd, rs1, imm_s)),
                    _ => Err(ParseError::InvalidInstruction(w)),
                },
                0b0000011 => match funct3 {
                    0 => Ok(Operation::LB(rd, rs1, imm_s)),
                    1 => Ok(Operation::LH(rd, rs1, imm_s)),
                    2 => Ok(Operation::LW(rd, rs1, imm_s)),
                    4 => Ok(Operation::LBU(rd, rs1, imm_s)),
                    5 => Ok(Operation::LHU(rd, rs1, imm_s)),
                    _ => Err(ParseError::InvalidInstruction(w)),
                },
                0b0010011 => match funct3 {
                    0 => Ok(Operation::ADDI(rd, rs1, imm_s)),
                    2 => Ok(Operation::SLTI(rd, rs1, imm_s)),
                    3 => Ok(Operation::SLTIU(rd, rs1, imm_s)),
                    4 => Ok(Operation::XORI(rd, rs1, imm_s)),
                    6 => Ok(Operation::ORI(rd, rs1, imm_s)),
                    7 => Ok(Operation::ANDI(rd, rs1, imm_s)),
                    1 => Ok(Operation::SLLI(rd, rs1, shamt)),
                    _ => if imm >> 10 == 0 {
                        Ok(Operation::SRLI(rd, rs1, shamt))
                    } else if imm >> 10 == 1 {
                        Ok(Operation::SRAI(rd, rs1, shamt))
                    } else {
                        Err(ParseError::InvalidInstruction(w))
                    },
                },
                0b1110011 => if w == 0x0000_0073 {
                    Ok(Operation::ECALL)
                } else if w == 0x0010_0073 {
                    Ok(Operation::EBREAK)
                } else {
                    Err(ParseError::InvalidInstruction(w))
                },
                0b0001111 => match funct3 {
                    0 => Ok(Operation::FENCE),
                    _ => Err(ParseError::InvalidInstruction(w)),
                },
                _ => Err(ParseError::InvalidOpcode(opcode)),
            }
        },
        InstructionType::SType { rs1, rs2, imm, funct3, opcode } => {
            let imm_s = sign_extended(imm, 12);
            match funct3 {
                0 => Ok(Operation::SB(rs1, rs2, imm_s)),
                1 => Ok(Operation::SH(rs1, rs2, imm_s)),
                2 => Ok(Operation::SW(rs1, rs2, imm_s)),
                _ => Err(ParseError::InvalidInstruction(w)),
            }
        },
        InstructionType::BType { rs1, rs2, imm, funct3, opcode } => {
            let imm_s = sign_extended(imm, 13);
            match funct3 {
                0 => Ok(Operation::BEQ(rs1, rs2, imm_s)),
                1 => Ok(Operation::BNE(rs1, rs2, imm_s)),
                4 => Ok(Operation::BLT(rs1, rs2, imm_s)),
                5 => Ok(Operation::BGE(rs1, rs2, imm_s)),
                6 => Ok(Operation::BLTU(rs1, rs2, imm_s)),
                7 => Ok(Operation::BGEU(rs1, rs2, imm_s)),
                _ => Err(ParseError::InvalidInstruction(w)),
            }
        },
        InstructionType::UType { rd, imm, opcode } => {
            let imm_s = (imm << 12) as i32;
            match opcode {
                0b0110111 => Ok(Operation::LUI(rd, imm_s)),
                0b0010111 => Ok(Operation::AUIPC(rd, imm_s)),
                _ => Err(ParseError::InvalidInstruction(w)),
            }
        },
        InstructionType::JType { rd, imm, opcode } => {
            Ok(Operation::JAL(rd, sign_extended(imm, 21)))
        },
    }
}

/// The instruction that a word encodes. No word decodes to `NOP` or to
/// `HINT`: the word of the no-operation is `ADDI Zero, Zero, 0` and decodes
/// as that.
pub open spec fn decode(w: u32) -> Result<Operation, ParseError> {
    match format_of(w) {
        Ok(t) => select(t, w),
        Err(e) => Err(e),
    }
}

impl Operation {
    fn select_r(rd: Register, rs1: Register, rs2: Register, funct3: u8, funct7: u8, opcode: u8, w: u32) -> (r: Result<Operation, ParseError>)
        ensures
            r == select(InstructionType::RType { rd, rs1, rs2, funct3, funct7, opcode }, w),
    {
        match (funct3, funct7) {
            (0, 0) => Ok(Operation::ADD(rd, rs1, rs2)),
            (0, 32) => Ok(Operation::SUB(rd, rs1, rs2)),
            (1, 0) => Ok(Operation::SLL(rd, rs1, rs2)),
            (2, 0) => Ok(Operation::SLT(rd, rs1, rs2)),
            (3, 0) => Ok(Operation::SLTU(rd, rs1, rs2)),
            (4, 0) => Ok(Operation::XOR(rd, rs1, rs2)),
            (5, 0) => Ok(Operation::SRL(rd, rs1, rs2)),
            (5, 32) => Ok(Operation::SRA(rd, rs1, rs2)),
            (6, 0) => Ok(Operation::OR(rd, rs1, rs2)),
            (7, 0) => Ok(Operation::AND(rd, rs1, rs2)),
            (0, 1) => Ok(Operation::MUL(rd, rs1, rs2)),
            (1, 1) => Ok(Operation::MULH(rd, rs1, rs2)),
            (2, 1) => Ok(Operation::MULHSU(rd, rs1, rs2)),
            (3, 1) => Ok(Operation::MULHU(rd, rs1, rs2)),
            (4, 1) => Ok(Operation::DIV(rd, rs1, rs2)),
            (5, 1) => Ok(Operation::DIVU(rd, rs1, rs2)),
            (6, 1) => Ok(Operation::REM(rd, rs1, rs2)),
            (7, 1) => Ok(Operation::REMU(rd, rs1, rs2)),
            _ => Err(ParseError::InvalidInstruction(w)),
        }
    }

    fn select_i(rd: Register, rs1: Register, imm: u32, funct3: u8, opcode: u8, w: u32) -> (r: Result<Operation, ParseError>)
        ensures
            r == select(InstructionType::IType { rd, rs1, imm, funct3, opcode }, w),
    {
        // note that `imm` (unsigned) is used for SLLI, SR[L|A]I
        // all other instrs sign-extend as per manual
        let imm_s: Immediate = sign_extend(imm, 12);
        match opcode {
            0b1100111 => match funct3 {
                0 => Ok(Operation::JALR(rd, rs1, imm_s)),
                _ => Err(ParseError::InvalidInstruction(w)),
            },
            0b0000011 => match funct3 {
                0 => Ok(Operation::LB(rd, rs1, imm_s)),
                1 => Ok(Operation::LH(rd, rs1, imm_s)),
                2 => Ok(Operation::LW(rd, rs1, imm_s)),
                4 => Ok(Operation::LBU(rd, rs1, imm_s)),
                5 => Ok(Operation::LHU(rd, rs1, imm_s)),
                _ => Err(ParseError::InvalidInstruction(w)),
            },
            0b0010011 => match funct3 {
                0 => Ok(Operation::ADDI(rd, rs1, imm_s)),
                2 => Ok(Operation::SLTI(rd, rs1, imm_s)),
                3 => Ok(Operation::SLTIU(rd, rs1, imm_s)),
                4 => Ok(Operation::XORI(rd, rs1, imm_s)),
                6 => Ok(Operation::ORI(rd, rs1, imm_s)),
                7 => Ok(Operation::ANDI(rd, rs1, imm_s)),
                _ => {
                    let shamt = bitrange(imm, 0, 4) as i32;
                    if funct3 == 1 {
                        Ok(Operation::SLLI(rd, rs1, shamt))
                    } else if imm >> 10 == 0 {
                        Ok(Operation::SRLI(rd, rs1, shamt))
                    } else if imm >> 10 == 1 {
                        Ok(Operation::SRAI(rd, rs1, shamt))
                    } else {
                        Err(ParseError::InvalidInstruction(w))
                    }
                },
            },
            0b1110011 => if w == 0x0000_0073 {
                Ok(Operation::ECALL)
            } else if w == 0x0010_0073 {
                Ok(Operation::EBREAK)
            } else {
                Err(ParseError::InvalidInstruction(w))
            },
            0b0001111 => match funct3 {
                0 => Ok(Operation::FENCE),
                _ => Err(ParseError::InvalidInstruction(w)),
            },
            _ => Err(ParseError::InvalidOpcode(opcode)),
        }
    }

    /// Decodes the instruction in the first four bytes, read little-endian.
    pub fn from_bytes(bytes: &[u8]) -> (r: Result<Operation, ParseError>)
        requires
            bytes@.len() >= 4,
        ensures
            r == decode(word_of(bytes@)),
    {
        let combined = bytes_to_u32(bytes);
        match InstructionType::from_bytes(bytes) {
            Ok(InstructionType::RType { rd, rs1, rs2, funct3, funct7, opcode }) => {
                Operation::select_r(rd, rs1, rs2, funct3, funct7, opcode, combined)
            },
            Ok(InstructionType::IType { rd, rs1, imm, funct3, opcode }) => {
                Operation::select_i(rd, rs1, imm, funct3, opcode, combined)
            },
            Ok(InstructionType::SType { rs1, rs2, imm, funct3, opcode }) => {
                let imm_s: Immediate = sign_extend(imm, 12);
                match funct3 {
                    0 => Ok(Operation::SB(rs1, rs2, imm_s)),
                    1 => Ok(Operation::SH(rs1, rs2, imm_s)),
                    2 => Ok(Operation::SW(rs1, rs2, imm_s)),
                    _ => Err(ParseError::InvalidInstruction(combined)),
                }
            },
            Ok(InstructionType::BType { rs1, rs2, imm, funct3, opcode }) => {
                let imm_s: Immediate = sign_extend(imm, 13);
                match funct3 {
                    0 => Ok(Operation::BEQ(rs1, rs2, imm_s)),
                    1 => Ok(Operation::BNE(rs1, rs2, imm_s)),
                    4 => Ok(Operation::BLT(rs1, rs2, imm_s)),
                    5 => Ok(Operation::BGE(rs1, rs2, imm_s)),
                    6 => Ok(Operation::BLTU(rs1, rs2, imm_s)),
                    7 => Ok(Operation::BGEU(rs1, rs2, imm_s)),
                    _ => Err(ParseError::InvalidInstruction(combined)),
                }
            },
            Ok(InstructionType::UType { rd, imm, opcode }) => {
                let imm_s: Immediate = (imm << 12) as i32;
                match opcode {
                    0b0110111 => Ok(Operation::LUI(rd, imm_s)),
                    0b0010111 => Ok(Operation::AUIPC(rd, imm_s)),
                    _ => Err(ParseError::InvalidInstruction(combined)),
                }
            },
            Ok(InstructionType::JType { rd, imm, opcode }) => {
                // The encoding leaves out bit 0 of the offset, so the
                // assembled immediate is 21 bits wide.
                Ok(Operation::JAL(rd, sign_extend(imm, 21)))
            },
            // Bubble the error from opcode parsing up
            Err(e) => Err(e),
        }
    }
}

/// The name of an instruction.
pub open spec fn mnemonic_text(op: Operation) -> Seq<char> {
    match op {
        Operation::ADD(..) => "ADD"@,
        Operation::SLTU(..) => "SLTU"@,
        Operation::SLT(..) => "SLT"@,
        Operation::AND(..) => "AND"@,
        Operation::OR(..) => "OR"@,
        Operation::XOR(..) => "XOR"@,
        Operation::SLL(..) => "SLL"@,
        Operation::SRL(..) => "SRL"@,
        Operation::SUB(..) => "SUB"@,
        Operation::SRA(..) => "SRA"@,
        Operation::MUL(..) => "MUL"@,
        Operation::MULH(..) => "MULH"@,
        Operation::MULHSU(..) => "MULHSU"@,
        Operation::MULHU(..) => "MULHU"@,
        Operation::DIV(..) => "DIV"@,
        Operation::DIVU(..) => "DIVU"@,
        Operation::REM(..) => "REM"@,
        Operation::REMU(..) => "REMU"@,
        Operation::ADDI(..) => "ADDI"@,
        Operation::SLTI(..) => "SLTI"@,
        Operation::SLTIU(..) => "SLTIU"@,
        Operation::ANDI(..) => "ANDI"@,
        Operation::ORI(..) => "ORI"@,
        Operation::XORI(..) => "XORI"@,
        Operation::SLLI(..) => "SLLI"@,
        Operation::SRLI(..) => "SRLI"@,
        Operation::SRAI(..) => "SRAI"@,
        Operation::JALR(..) => "JALR"@,
        Operation::BEQ(..) => "BEQ"@,
        Operation::BNE(..) => "BNE"@,
        Operation::BLT(..) => "BLT"@,
        Operation::BLTU(..) => "BLTU"@,
        Operation::BGE(..) => "BGE"@,
        Operation::BGEU(..) => "BGEU"@,
        Operation::LW(..) => "LW"@,
        Operation::LH(..) => "LH"@,
        Operation::LHU(..) => "LHU"@,
        Operation::LB(..) => "LB"@,
        Operation::LBU(..) => "LBU"@,
        Operation::SW(..) => "SW"@,
        Operation::SH(..) => "SH"@,
        Operation::SB(..) => "SB"@,
        Operation::LUI(..) => "LUI"@,
        Operation::AUIPC(..) => "AUIPC"@,
        Operation::JAL(..) => "JAL"@,
        Operation::NOP => "NOP"@,
        Operation::ECALL => "ECALL"@,
        Operation::EBREAK => "EBREAK"@,
        Operation::FENCE => "FENCE"@,
        Operation::HINT => "HINT"@,
    }
}

/// How a register is shown in a listing: by its name, `Zero` in capitals.
pub open spec fn register_text(reg: Register) -> Seq<char> {
    if reg == Register::Zero {
        "ZERO"@
    } else {
        reg.name_text()
    }
}

/// How an immediate is shown in a listing: as the word that stands for it,
/// in hexadecimal.
pub open spec fn immediate_text(imm: Immediate) -> Seq<char> {
    hex_text(wrap32(imm as int))
}

/// The registers and the immediate of an instruction, as far as it has
/// them, in the order in which it names them.
pub open spec fn operand_parts(op: Operation) -> (
    Option<Register>,
    Option<Register>,
    Option<Register>,
    Option<Immediate>,
) {
    match op {
        Operation::ADD(a, b, c) => (Some(a), Some(b), Some(c), None),
        Operation::SLTU(a, b, c) => (Some(a), Some(b), Some(c), None),
        Operation::SLT(a, b, c) => (Some(a), Some(b), Some(c), None),
        Operation::AND(a, b, c) => (Some(a), Some(b), Some(c), None),
        Operation::OR(a, b, c) => (Some(a), Some(b), Some(c), None),
        Operation::XOR(a, b, c) => (Some(a), Some(b), Some(c), None),
        Operation::SLL(a, b, c) => (Some(a), Some(b), Some(c), None),
        Operation::SRL(a, b, c) => (Some(a), Some(b), Some(c), None),
        Operation::SUB(a, b, c) => (Some(a), Some(b), Some(c), None),
        Operation::SRA(a, b, c) => (Some(a), Some(b), Some(c), None),
        Operation::MUL(a, b, c) => (Some(a), Some(b), Some(c), None),
        Operation::MULH(a, b, c) => (Some(a), Some(b), Some(c), None),
        Operation::MULHSU(a, b, c) => (Some(a), Some(b), Some(c), None),
        Operation::MULHU(a, b, c) => (Some(a), Some(b), Some(c), None),
        Operation::DIV(a, b, c) => (Some(a), Some(b), Some(c), None),
        Operation::DIVU(a, b, c) => (Some(a), Some(b), Some(c), None),
        Operation::REM(a, b, c) => (Some(a), Some(b), Some(c), None),
        Operation::REMU(a, b, c) => (Some(a), Some(b), Some(c), None),
        Operation::ADDI(a, b, imm) => (Some(a), Some(b), None, Some(imm)),
        Operation::SLTI(a, b, imm) => (Some(a), Some(b), None, Some(imm)),
        Operation::SLTIU(a, b, imm) => (Some(a), Some(b), None, Some(imm)),
        Operation::ANDI(a, b, imm) => (Some(a), Some(b), None, Some(imm)),
        Operation::ORI(a, b, imm) => (Some(a), Some(b), None, Some(imm)),
        Operation::XORI(a, b, imm) => (Some(a), Some(b), None, Some(imm)),
        Operation::SLLI(a, b, imm) => (Some(a), Some(b), None, Some(imm)),
        Operation::SRLI(a, b, imm) => (Some(a), Some(b), None, Some(imm)),
        Operation::SRAI(a, b, imm) => (Some(a), Some(b), None, Some(imm)),
        Operation::JALR(a, b, imm) => (Some(a), Some(b), None, Some(imm)),
        Operation::BEQ(a, b, imm) => (Some(a), Some(b), None, Some(imm)),
        Operation::BNE(a, b, imm) => (Some(a), Some(b), None, Some(imm)),
        Operation::BLT(a, b, imm) => (Some(a), Some(b), None, Some(imm)),
        Operation::BLTU(a, b, imm) => (Some(a), Some(b), None, Some(imm)),
        Operation::BGE(a, b, imm) => (Some(a), Some(b), None, Some(imm)),
        Operation::BGEU(a, b, imm) => (Some(a), Some(b), None, Some(imm)),
        Operation::LW(a, b, imm) => (Some(a), Some(b), None, Some(imm)),
        Operation::LH(a, b, imm) => (Some(a), Some(b), None, Some(imm)),
        Operation::LHU(a, b, imm) => (Some(a), Some(b), None, Some(imm)),
        Operation::LB(a, b, imm) => (Some(a), Some(b), None, Some(imm)),
        Operation::LBU(a, b, imm) => (Some(a), Some(b), None, Some(imm)),
        Operation::SW(a, b, imm) => (Some(a), Some(b), None, Some(imm)),
        Operation::SH(a, b, imm) => (Some(a), Some(b), None, Some(imm)),
        Operation::SB(a, b, imm) => (Some(a), Some(b), None, Some(imm)),
        Operation::LUI(a, imm) => (Some(a), None, None, Some(imm)),
        Operation::AUIPC(a, imm) => (Some(a), None, None, Some(imm)),
        Operation::JAL(a, imm) => (Some(a), None, None, Some(imm)),
        _ => (None, None, None, None),
    }
}

/// A register after a comma, or nothing.
pub open spec fn next_register_text(reg: Option<Register>) -> Seq<char> {
    match reg {
        Some(reg) => ", "@ + register_text(reg),
        None => Seq::empty(),
    }
}

/// An immediate after a comma, or nothing.
pub open spec fn next_immediate_text(imm: Option<Immediate>) -> Seq<char> {
    match imm {
        Some(imm) => ", "@ + immediate_text(imm),
        None => Seq::empty(),
    }
}

/// Operands separated by commas.
pub open spec fn parts_text(
    first: Register,
    second: Option<Register>,
    third: Option<Register>,
    imm: Option<Immediate>,
) -> Seq<char> {
    register_text(first) + next_register_text(second) + next_register_text(third)
        + next_immediate_text(imm)
}

/// The operands of an instruction, separated by commas; empty where it has
/// none.
pub open spec fn operands_text(op: Operation) -> Seq<char> {
    let parts = operand_parts(op);
    match parts.0 {
        Some(first) => parts_text(first, parts.1, parts.2, parts.3),
        None => Seq::empty(),
    }
}

/// Operands are never shown as an empty text.
pub proof fn parts_shown(
    first: Register,
    second: Option<Register>,
    third: Option<Register>,
    imm: Option<Immediate>,
)
    ensures
        parts_text(first, second, third, imm).len() > 0,
{
    reveal_strlit("ZERO");
    first.name_is_not_empty();
}

/// Appends a register after a comma, or nothing.
fn push_next_register(out: &mut String, reg: Option<Register>)
    ensures
        final(out)@ == old(out)@ + next_register_text(reg),
{
    match reg {
        Some(reg) => {
            let mut piece = String::from_str(", ");
            piece.append(reg.display_name());
            out.append(piece.as_str());
        },
        None => {
            assert(old(out)@ + Seq::<char>::empty() =~= old(out)@);
        },
    }
}

/// Appends an immediate after a comma, or nothing.
fn push_next_immediate(out: &mut String, imm: Option<Immediate>)
    ensures
        final(out)@ == old(out)@ + next_immediate_text(imm),
{
    match imm {
        Some(imm) => {
            let mut piece = String::from_str(", ");
            piece.append(hex(u32_of(imm)).as_str());
            out.append(piece.as_str());
        },
        None => {
            assert(old(out)@ + Seq::<char>::empty() =~= old(out)@);
        },
    }
}

/// Appends operands separated by commas.
fn push_parts(
    out: &mut String,
    first: Register,
    second: Option<Register>,
    third: Option<Register>,
    imm: Option<Immediate>,
)
    ensures
        final(out)@ == old(out)@ + parts_text(first, second, third, imm),
{
    let mut parts = String::from_str(first.display_name());
    push_next_register(&mut parts, second);
    push_next_register(&mut parts, third);
    push_next_immediate(&mut parts, imm);
    out.append(parts.as_str());
}

/// An instruction as it is listed: its name alone where it has no
/// operands; else the name, filled with spaces to six columns and by one
/// space at least, and the operands.
pub open spec fn listing_text(op: Operation) -> Seq<char> {
    if operands_text(op).len() == 0 {
        mnemonic_text(op)
    } else {
        mnemonic_text(op) + repeated(
            ' ',
            if mnemonic_text(op).len() < 6 {
                6 - mnemonic_text(op).len()
            } else {
                1
            },
        ) + operands_text(op)
    }
}

impl Register {
    /// How the register is shown in a listing.
    pub fn display_name(&self) -> (r: &'static str)
        ensures
            r@ == register_text(*self),
    {
        match self {
            Register::Zero => "ZERO",
            _ => self.name(),
        }
    }
}

impl Operation {
    /// The name of the instruction.
    pub fn mnemonic(&self) -> (r: &'static str)
        ensures
            r@ == mnemonic_text(*self),
    {
        match self {
            Operation::ADD(..) => "ADD",
            Operation::SLTU(..) => "SLTU",
            Operation::SLT(..) => "SLT",
            Operation::AND(..) => "AND",
            Operation::OR(..) => "OR",
            Operation::XOR(..) => "XOR",
            Operation::SLL(..) => "SLL",
            Operation::SRL(..) => "SRL",
            Operation::SUB(..) => "SUB",
            Operation::SRA(..) => "SRA",
            Operation::MUL(..) => "MUL",
            Operation::MULH(..) => "MULH",
            Operation::MULHSU(..) => "MULHSU",
            Operation::MULHU(..) => "MULHU",
            Operation::DIV(..) => "DIV",
            Operation::DIVU(..) => "DIVU",
            Operation::REM(..) => "REM",
            Operation::REMU(..) => "REMU",
            Operation::ADDI(..) => "ADDI",
            Operation::SLTI(..) => "SLTI",
            Operation::SLTIU(..) => "SLTIU",
            Operation::ANDI(..) => "ANDI",
            Operation::ORI(..) => "ORI",
            Operation::XORI(..) => "XORI",
            Operation::SLLI(..) => "SLLI",
            Operation::SRLI(..) => "SRLI",
            Operation::SRAI(..) => "SRAI",
            Operation::JALR(..) => "JALR",
            Operation::BEQ(..) => "BEQ",
            Operation::BNE(..) => "BNE",
            Operation::BLT(..) => "BLT",
            Operation::BLTU(..) => "BLTU",
            Operation::BGE(..) => "BGE",
            Operation::BGEU(..) => "BGEU",
            Operation::LW(..) => "LW",
            Operation::LH(..) => "LH",
            Operation::LHU(..) => "LHU",
            Operation::LB(..) => "LB",
            Operation::LBU(..) => "LBU",
            Operation::SW(..) => "SW",
            Operation::SH(..) => "SH",
            Operation::SB(..) => "SB",
            Operation::LUI(..) => "LUI",
            Operation::AUIPC(..) => "AUIPC",
            Operation::JAL(..) => "JAL",
            Operation::NOP => "NOP",
            Operation::ECALL => "ECALL",
            Operation::EBREAK => "EBREAK",
            Operation::FENCE => "FENCE",
            Operation::HINT => "HINT",
        }
    }

    /// The registers and the immediate of the instruction, as far as it
    /// has them.
    fn operands(&self) -> (r: (
        Option<Register>,
        Option<Register>,
        Option<Register>,
        Option<Immediate>,
    ))
        ensures
            r == operand_parts(*self),
    {
        match *self {
            Operation::ADD(a, b, c) => (Some(a), Some(b), Some(c), None),
            Operation::SLTU(a, b, c) => (Some(a), Some(b), Some(c), None),
            Operation::SLT(a, b, c) => (Some(a), Some(b), Some(c), None),
            Operation::AND(a, b, c) => (Some(a), Some(b), Some(c), None),
            Operation::OR(a, b, c) => (Some(a), Some(b), Some(c), None),
            Operation::XOR(a, b, c) => (Some(a), Some(b), Some(c), None),
            Operation::SLL(a, b, c) => (Some(a), Some(b), Some(c), None),
            Operation::SRL(a, b, c) => (Some(a), Some(b), Some(c), None),
            Operation::SUB(a, b, c) => (Some(a), Some(b), Some(c), None),
            Operation::SRA(a, b, c) => (Some(a), Some(b), Some(c), None),
            Operation::MUL(a, b, c) => (Some(a), Some(b), Some(c), None),
            Operation::MULH(a, b, c) => (Some(a), Some(b), Some(c), None),
            Operation::MULHSU(a, b, c) => (Some(a), Some(b), Some(c), None),
            Operation::MULHU(a, b, c) => (Some(a), Some(b), Some(c), None),
            Operation::DIV(a, b, c) => (Some(a), Some(b), Some(c), None),
            Operation::DIVU(a, b, c) => (Some(a), Some(b), Some(c), None),
            Operation::REM(a, b, c) => (Some(a), Some(b), Some(c), None),
            Operation::REMU(a, b, c) => (Some(a), Some(b), Some(c), None),
            Operation::ADDI(a, b, imm) => (Some(a), Some(b), None, Some(imm)),
            Operation::SLTI(a, b, imm) => (Some(a), Some(b), None, Some(imm)),
            Operation::SLTIU(a, b, imm) => (Some(a), Some(b), None, Some(imm)),
            Operation::ANDI(a, b, imm) => (Some(a), Some(b), None, Some(imm)),
            Operation::ORI(a, b, imm) => (Some(a), Some(b), None, Some(imm)),
            Operation::XORI(a, b, imm) => (Some(a), Some(b), None, Some(imm)),
            Operation::SLLI(a, b, imm) => (Some(a), Some(b), None, Some(imm)),
            Operation::SRLI(a, b, imm) => (Some(a), Some(b), None, Some(imm)),
            Operation::SRAI(a, b, imm) => (Some(a), Some(b), None, Some(imm)),
            Operation::JALR(a, b, imm) => (Some(a), Some(b), None, Some(imm)),
            Operation::BEQ(a, b, imm) => (Some(a), Some(b), None, Some(imm)),
            Operation::BNE(a, b, imm) => (Some(a), Some(b), None, Some(imm)),
            Operation::BLT(a, b, imm) => (Some(a), Some(b), None, Some(imm)),
            Operation::BLTU(a, b, imm) => (Some(a), Some(b), None, Some(imm)),
            Operation::BGE(a, b, imm) => (Some(a), Some(b), None, Some(imm)),
            Operation::BGEU(a, b, imm) => (Some(a), Some(b), None, Some(imm)),
            Operation::LW(a, b, imm) => (Some(a), Some(b), None, Some(imm)),
            Operation::LH(a, b, imm) => (Some(a), Some(b), None, Some(imm)),
            Operation::LHU(a, b, imm) => (Some(a), Some(b), None, Some(imm)),
            Operation::LB(a, b, imm) => (Some(a), Some(b), None, Some(imm)),
            Operation::LBU(a, b, imm) => (Some(a), Some(b), None, Some(imm)),
            Operation::SW(a, b, imm) => (Some(a), Some(b), None, Some(imm)),
            Operation::SH(a, b, imm) => (Some(a), Some(b), None, Some(imm)),
            Operation::SB(a, b, imm) => (Some(a), Some(b), None, Some(imm)),
            Operation::LUI(a, imm) => (Some(a), None, None, Some(imm)),
            Operation::AUIPC(a, imm) => (Some(a), None, None, Some(imm)),
            Operation::JAL(a, imm) => (Some(a), None, None, Some(imm)),
            _ => (None, None, None, None),
        }
    }

    /// The instruction as it is listed.
    pub fn listing(&self) -> (r: String)
        ensures
            r@ == listing_text(*self),
    {
        let name = self.mnemonic();
        let mut out = String::from_str(name);
        let (first, second, third, imm) = self.operands();
        match first {
            Some(first) => {
                proof {
                    parts_shown(first, second, third, imm);
                }
                let len = name.unicode_len();
                push_repeated(
                    &mut out,
                    ' ',
                    if len < 6 {
                        6 - len
                    } else {
                        1
                    },
                );
                push_parts(&mut out, first, second, third, imm);
            },
            None => {},
        }
        out
    }
}

} // verus!

use vstd::prelude::*;

use crate::decode::{
    bits, format_of, imm_b, imm_i, imm_j, imm_s, imm_u, InstructionType, ParseError,
};
use crate::opcode::{decode, operand_parts, select, sign_extended, Operation};
use crate::register::Register;

verus! {

/// An R-type word from its fields.
pub open spec fn r_word(funct7: u32, rs2: u32, rs1: u32, funct3: u32, rd: u32, opcode: u32) -> u32 {
    (funct7 << 25) | (rs2 << 20) | (rs1 << 15) | (funct3 << 12) | (rd << 7) | opcode
}

/// An I-type word: the immediate's low 12 bits stand in bits 31 to 20.
pub open spec fn i_word(imm: i32, rs1: u32, funct3: u32, rd: u32, opcode: u32) -> u32 {
    (((imm as u32) & 0xfff) << 20) | (rs1 << 15) | (funct3 << 12) | (rd << 7) | opcode
}

/// An S-type word: imm[11:5] in bits 31 to 25, imm[4:0] in bits 11 to 7.
pub open spec fn s_word(imm: i32, rs2: u32, rs1: u32, funct3: u32, opcode: u32) -> u32 {
    ((((imm as u32) >> 5) & 0x7f) << 25) | (rs2 << 20) | (rs1 << 15) | (funct3 << 12) | (((imm as u32)
        & 0x1f) << 7) | opcode
}

/// A B-type word: imm[12] in bit 31, imm[10:5] in bits 30 to 25, imm[4:1] in
/// bits 11 to 8, imm[11] in bit 7.
pub open spec fn b_word(imm: i32, rs2: u32, rs1: u32, funct3: u32, opcode: u32) -> u32 {
    ((((imm as u32) >> 12) & 1) << 31) | ((((imm as u32) >> 5) & 0x3f) << 25) | (rs2 << 20) | (rs1
        << 15) | (funct3 << 12) | ((((imm as u32) >> 1) & 0xf) << 8) | ((((imm as u32) >> 11) & 1)
        << 7) | opcode
}

/// A U-type word: the immediate's upper 20 bits stay where they are.
pub open spec fn u_word(imm: i32, rd: u32, opcode: u32) -> u32 {
    ((imm as u32) & 0xffff_f000) | (rd << 7) | opcode
}

/// A J-type word: imm[20] in bit 31, imm[10:1] in bits 30 to 21, imm[11] in
/// bit 20, imm[19:12] in bits 19 to 12.
pub open spec fn j_word(imm: i32, rd: u32, opcode: u32) -> u32 {
    ((((imm as u32) >> 20) & 1) << 31) | ((((imm as u32) >> 1) & 0x3ff) << 21) | ((((imm as u32)
        >> 11) & 1) << 20) | ((((imm as u32) >> 12) & 0xff) << 12) | (rd << 7) | opcode
}

/// The number of a register as a field of a word.
pub open spec fn num(r: Register) -> u32 {
    r.index() as u32
}

/// The fields of an instruction, by the format in which they are laid out.
pub enum Layout {
    R { funct7: u32, rs2: Register, rs1: Register, funct3: u32, rd: Register },
    I { imm: i32, rs1: Register, funct3: u32, rd: Register, opcode: u32 },
    S { imm: i32, rs2: Register, rs1: Register, funct3: u32 },
    B { imm: i32, rs2: Register, rs1: Register, funct3: u32 },
    U { imm: i32, rd: Register, opcode: u32 },
    J { imm: i32, rd: Register },
    Fixed(u32),
}

/// The fields of an instruction.
pub open spec fn layout_of(op: Operation) -> Layout {
    match op {
        Operation::ADD(rd, rs1, rs2) => Layout::R { funct7: 0, rs2, rs1, funct3: 0, rd },
        Operation::SUB(rd, rs1, rs2) => Layout::R { funct7: 32, rs2, rs1, funct3: 0, rd },
        Operation::SLL(rd, rs1, rs2) => Layout::R { funct7: 0, rs2, rs1, funct3: 1, rd },
        Operation::SLT(rd, rs1, rs2) => Layout::R { funct7: 0, rs2, rs1, funct3: 2, rd },
        Operation::SLTU(rd, rs1, rs2) => Layout::R { funct7: 0, rs2, rs1, funct3: 3, rd },
        Operation::XOR(rd, rs1, rs2) => Layout::R { funct7: 0, rs2, rs1, funct3: 4, rd },
        Operation::SRL(rd, rs1, rs2) => Layout::R { funct7: 0, rs2, rs1, funct3: 5, rd },
        Operation::SRA(rd, rs1, rs2) => Layout::R { funct7: 32, rs2, rs1, funct3: 5, rd },
        Operation::OR(rd, rs1, rs2) => Layout::R { funct7: 0, rs2, rs1, funct3: 6, rd },
        Operation::AND(rd, rs1, rs2) => Layout::R { funct7: 0, rs2, rs1, funct3: 7, rd },
        Operation::MUL(rd, rs1, rs2) => Layout::R { funct7: 1, rs2, rs1, funct3: 0, rd },
        Operation::MULH(rd, rs1, rs2) => Layout::R { funct7: 1, rs2, rs1, funct3: 1, rd },
        Operation::MULHSU(rd, rs1, rs2) => Layout::R { funct7: 1, rs2, rs1, funct3: 2, rd },
        Operation::MULHU(rd, rs1, rs2) => Layout::R { funct7: 1, rs2, rs1, funct3: 3, rd },
        Operation::DIV(rd, rs1, rs2) => Layout::R { funct7: 1, rs2, rs1, funct3: 4, rd },
        Operation::DIVU(rd, rs1, rs2) => Layout::R { funct7: 1, rs2, rs1, funct3: 5, rd },
        Operation::REM(rd, rs1, rs2) => Layout::R { funct7: 1, rs2, rs1, funct3: 6, rd },
        Operation::REMU(rd, rs1, rs2) => Layout::R { funct7: 1, rs2, rs1, funct3: 7, rd },
        Operation::ADDI(rd, rs1, imm) => Layout::I { imm, rs1, funct3: 0, rd, opcode: 0b0010011 },
        Operation::SLTI(rd, rs1, imm) => Layout::I { imm, rs1, funct3: 2, rd, opcode: 0b0010011 },
        Operation::SLTIU(rd, rs1, imm) => Layout::I { imm, rs1, funct3: 3, rd, opcode: 0b0010011 },
        Operation::XORI(rd, rs1, imm) => Layout::I { imm, rs1, funct3: 4, rd, opcode: 0b0010011 },
        Operation::ORI(rd, rs1, imm) => Layout::I { imm, rs1, funct3: 6, rd, opcode: 0b0010011 },
        Operation::ANDI(rd, rs1, imm) => Layout::I { imm, rs1, funct3: 7, rd, opcode: 0b0010011 },
        Operation::SLLI(rd, rs1, shamt) => Layout::I { imm: shamt, rs1, funct3: 1, rd, opcode: 0b0010011 },
        Operation::SRLI(rd, rs1, shamt) => Layout::I { imm: shamt, rs1, funct3: 5, rd, opcode: 0b0010011 },
        Operation::SRAI(rd, rs1, shamt) => Layout::I {
            imm: shamt | 0x400,
            rs1,
            funct3: 5,
            rd,
            opcode: 0b0010011,
        },
        Operation::LB(rd, rs1, imm) => Layout::I { imm, rs1, funct3: 0, rd, opcode: 0b0000011 },
        Operation::LH(rd, rs1, imm) => Layout::I { imm, rs1, funct3: 1, rd, opcode: 0b0000011 },
        Operation::LW(rd, rs1, imm) => Layout::I { imm, rs1, funct3: 2, rd, opcode: 0b0000011 },
        Operation::LBU(rd, rs1, imm) => Layout::I { imm, rs1, funct3: 4, rd, opcode: 0b0000011 },
        Operation::LHU(rd, rs1, imm) => Layout::I { imm, rs1, funct3: 5, rd, opcode: 0b0000011 },
        Operation::JALR(rd, rs1, imm) => Layout::I { imm, rs1, funct3: 0, rd, opcode: 0b1100111 },
        Operation::SB(rs1, rs2, imm) => Layout::S { imm, rs2, rs1, funct3: 0 },
        Operation::SH(rs1, rs2, imm) => Layout::S { imm, rs2, rs1, funct3: 1 },
        Operation::SW(rs1, rs2, imm) => Layout::S { imm, rs2, rs1, funct3: 2 },
        Operation::BEQ(rs1, rs2, imm) => Layout::B { imm, rs2, rs1, funct3: 0 },
        Operation::BNE(rs1, rs2, imm) => Layout::B { imm, rs2, rs1, funct3: 1 },
        Operation::BLT(rs1, rs2, imm) => Layout::B { imm, rs2, rs1, funct3: 4 },
        Operation::BGE(rs1, rs2, imm) => Layout::B { imm, rs2, rs1, funct3: 5 },
        Operation::BLTU(rs1, rs2, imm) => Layout::B { imm, rs2, rs1, funct3: 6 },
        Operation::BGEU(rs1, rs2, imm) => Layout::B { imm, rs2, rs1, funct3: 7 },
        Operation::LUI(rd, imm) => Layout::U { imm, rd, opcode: 0b0110111 },
        Operation::AUIPC(rd, imm) => Layout::U { imm, rd, opcode: 0b0010111 },
        Operation::JAL(rd, imm) => Layout::J { imm, rd },
        Operation::ECALL => Layout::Fixed(0x0000_0073),
        Operation::EBREAK => Layout::Fixed(0x0010_0073),
        Operation::FENCE => Layout::Fixed(0x0000_000f),
        Operation::NOP => Layout::Fixed(0x0000_0013),
        Operation::HINT => Layout::Fixed(0x0010_0013),
    }
}

/// The word that a layout's fields make.
pub open spec fn assembled(layout: Layout) -> u32 {
    match layout {
        Layout::R { funct7, rs2, rs1, funct3, rd } => r_word(
            funct7,
            num(rs2),
            num(rs1),
            funct3,
            num(rd),
            0b0110011,
        ),
        Layout::I { imm, rs1, funct3, rd, opcode } => i_word(imm, num(rs1), funct3, num(rd), opcode),
        Layout::S { imm, rs2, rs1, funct3 } => s_word(imm, num(rs2), num(rs1), funct3, 0b0100011),
        Layout::B { imm, rs2, rs1, funct3 } => b_word(imm, num(rs2), num(rs1), funct3, 0b1100011),
        Layout::U { imm, rd, opcode } => u_word(imm, num(rd), opcode),
        Layout::J { imm, rd } => j_word(imm, num(rd), 0b1101111),
        Layout::Fixed(w) => w,
    }
}

/// The word that stands for an instruction. `NOP` is written as
/// `ADDI Zero, Zero, 0` and `HINT` as `ADDI Zero, Zero, 1`, and their words
/// decode as those; `FENCE` orders nothing.
pub open spec fn encode(op: Operation) -> u32 {
    match op {
        Operation::ADD(rd, rs1, rs2) => r_word(0, num(rs2), num(rs1), 0, num(rd), 0b0110011),
        Operation::SUB(rd, rs1, rs2) => r_word(32, num(rs2), num(rs1), 0, num(rd), 0b0110011),
        Operation::SLL(rd, rs1, rs2) => r_word(0, num(rs2), num(rs1), 1, num(rd), 0b0110011),
        Operation::SLT(rd, rs1, rs2) => r_word(0, num(rs2), num(rs1), 2, num(rd), 0b0110011),
        Operation::SLTU(rd, rs1, rs2) => r_word(0, num(rs2), num(rs1), 3, num(rd), 0b0110011),
        Operation::XOR(rd, rs1, rs2) => r_word(0, num(rs2), num(rs1), 4, num(rd), 0b0110011),
        Operation::SRL(rd, rs1, rs2) => r_word(0, num(rs2), num(rs1), 5, num(rd), 0b0110011),
        Operation::SRA(rd, rs1, rs2) => r_word(32, num(rs2), num(rs1), 5, num(rd), 0b0110011),
        Operation::OR(rd, rs1, rs2) => r_word(0, num(rs2), num(rs1), 6, num(rd), 0b0110011),
        Operation::AND(rd, rs1, rs2) => r_word(0, num(rs2), num(rs1), 7, num(rd), 0b0110011),
        Operation::MUL(rd, rs1, rs2) => r_word(1, num(rs2), num(rs1), 0, num(rd), 0b0110011),
        Operation::MULH(rd, rs1, rs2) => r_word(1, num(rs2), num(rs1), 1, num(rd), 0b0110011),
        Operation::MULHSU(rd, rs1, rs2) => r_word(1, num(rs2), num(rs1), 2, num(rd), 0b0110011),
        Operation::MULHU(rd, rs1, rs2) => r_word(1, num(rs2), num(rs1), 3, num(rd), 0b0110011),
        Operation::DIV(rd, rs1, rs2) => r_word(1, num(rs2), num(rs1), 4, num(rd), 0b0110011),
        Operation::DIVU(rd, rs1, rs2) => r_word(1, num(rs2), num(rs1), 5, num(rd), 0b0110011),
        Operation::REM(rd, rs1, rs2) => r_word(1, num(rs2), num(rs1), 6, num(rd), 0b0110011),
        Operation::REMU(rd, rs1, rs2) => r_word(1, num(rs2), num(rs1), 7, num(rd), 0b0110011),
        Operation::ADDI(rd, rs1, imm) => i_word(imm, num(rs1), 0, num(rd), 0b0010011),
        Operation::SLTI(rd, rs1, imm) => i_word(imm, num(rs1), 2, num(rd), 0b0010011),
        Operation::SLTIU(rd, rs1, imm) => i_word(imm, num(rs1), 3, num(rd), 0b0010011),
        Operation::XORI(rd, rs1, imm) => i_word(imm, num(rs1), 4, num(rd), 0b0010011),
        Operation::ORI(rd, rs1, imm) => i_word(imm, num(rs1), 6, num(rd), 0b0010011),
        Operation::ANDI(rd, rs1, imm) => i_word(imm, num(rs1), 7, num(rd), 0b0010011),
        Operation::SLLI(rd, rs1, shamt) => i_word(shamt, num(rs1), 1, num(rd), 0b0010011),
        Operation::SRLI(rd, rs1, shamt) => i_word(shamt, num(rs1), 5, num(rd), 0b0010011),
        Operation::SRAI(rd, rs1, shamt) => i_word(shamt | 0x400, num(rs1), 5, num(rd), 0b0010011),
        Operation::LB(rd, rs1, imm) => i_word(imm, num(rs1), 0, num(rd), 0b0000011),
        Operation::LH(rd, rs1, imm) => i_word(imm, num(rs1), 1, num(rd), 0b0000011),
        Operation::LW(rd, rs1, imm) => i_word(imm, num(rs1), 2, num(rd), 0b0000011),
        Operation::LBU(rd, rs1, imm) => i_word(imm, num(rs1), 4, num(rd), 0b0000011),
        Operation::LHU(rd, rs1, imm) => i_word(imm, num(rs1), 5, num(rd), 0b0000011),
        Operation::JALR(rd, rs1, imm) => i_word(imm, num(rs1), 0, num(rd), 0b1100111),
        Operation::SB(rs1, rs2, imm) => s_word(imm, num(rs2), num(rs1), 0, 0b0100011),
        Operation::SH(rs1, rs2, imm) => s_word(imm, num(rs2), num(rs1), 1, 0b0100011),
        Operation::SW(rs1, rs2, imm) => s_word(imm, num(rs2), num(rs1), 2, 0b0100011),
        Operation::BEQ(rs1, rs2, imm) => b_word(imm, num(rs2), num(rs1), 0, 0b1100011),
        Operation::BNE(rs1, rs2, imm) => b_word(imm, num(rs2), num(rs1), 1, 0b1100011),
        Operation::BLT(rs1, rs2, imm) => b_word(imm, num(rs2), num(rs1), 4, 0b1100011),
        Operation::BGE(rs1, rs2, imm) => b_word(imm, num(rs2), num(rs1), 5, 0b1100011),
        Operation::BLTU(rs1, rs2, imm) => b_word(imm, num(rs2), num(rs1), 6, 0b1100011),
        Operation::BGEU(rs1, rs2, imm) => b_word(imm, num(rs2), num(rs1), 7, 0b1100011),
        Operation::LUI(rd, imm) => u_word(imm, num(rd), 0b0110111),
        Operation::AUIPC(rd, imm) => u_word(imm, num(rd), 0b0010111),
        Operation::JAL(rd, imm) => j_word(imm, num(rd), 0b1101111),
        Operation::ECALL => 0x0000_0073,
        Operation::EBREAK => 0x0010_0073,
        Operation::FENCE => 0x0000_000f,
        Operation::NOP => 0x0000_0013,
        Operation::HINT => 0x0010_0013,
    }
}

/// The word of an instruction is the word that its fields make.
pub proof fn encode_by_layout(op: Operation)
    ensures
        encode(op) == assembled(layout_of(op)),
{
    match op {
        Operation::ADD(_, _, _) => {},
        Operation::SUB(_, _, _) => {},
        Operation::SLL(_, _, _) => {},
        Operation::SLT(_, _, _) => {},
        Operation::SLTU(_, _, _) => {},
        Operation::XOR(_, _, _) => {},
        Operation::SRL(_, _, _) => {},
        Operation::SRA(_, _, _) => {},
        Operation::OR(_, _, _) => {},
        Operation::AND(_, _, _) => {},
        Operation::MUL(_, _, _) => {},
        Operation::MULH(_, _, _) => {},
        Operation::MULHSU(_, _, _) => {},
        Operation::MULHU(_, _, _) => {},
        Operation::DIV(_, _, _) => {},
        Operation::DIVU(_, _, _) => {},
        Operation::REM(_, _, _) => {},
        Operation::REMU(_, _, _) => {},
        Operation::ADDI(_, _, _) => {},
        Operation::SLTI(_, _, _) => {},
        Operation::SLTIU(_, _, _) => {},
        Operation::XORI(_, _, _) => {},
        Operation::ORI(_, _, _) => {},
        Operation::ANDI(_, _, _) => {},
        Operation::SLLI(_, _, _) => {},
        Operation::SRLI(_, _, _) => {},
        Operation::SRAI(_, _, _) => {},
        Operation::LB(_, _, _) => {},
        Operation::LH(_, _, _) => {},
        Operation::LW(_, _, _) => {},
        Operation::LBU(_, _, _) => {},
        Operation::LHU(_, _, _) => {},
        Operation::JALR(_, _, _) => {},
        Operation::SB(_, _, _) => {},
        Operation::SH(_, _, _) => {},
        Operation::SW(_, _, _) => {},
        Operation::BEQ(_, _, _) => {},
        Operation::BNE(_, _, _) => {},
        Operation::BLT(_, _, _) => {},
        Operation::BGE(_, _, _) => {},
        Operation::BLTU(_, _, _) => {},
        Operation::BGEU(_, _, _) => {},
        Operation::LUI(_, _) => {},
        Operation::AUIPC(_, _) => {},
        Operation::JAL(_, _) => {},
        Operation::ECALL => {},
        Operation::EBREAK => {},
        Operation::FENCE => {},
        Operation::NOP => {},
        Operation::HINT => {},
    }
}

/// Whether the immediate fits the field that the instruction's format has
/// for it.
pub open spec fn immediate_fits(op: Operation) -> bool {
    match op {
        Operation::ADDI(_, _, imm) => -0x800 <= imm < 0x800,
        Operation::SLTI(_, _, imm) => -0x800 <= imm < 0x800,
        Operation::SLTIU(_, _, imm) => -0x800 <= imm < 0x800,
        Operation::XORI(_, _, imm) => -0x800 <= imm < 0x800,
        Operation::ORI(_, _, imm) => -0x800 <= imm < 0x800,
        Operation::ANDI(_, _, imm) => -0x800 <= imm < 0x800,
        Operation::LB(_, _, imm) => -0x800 <= imm < 0x800,
        Operation::LH(_, _, imm) => -0x800 <= imm < 0x800,
        Operation::LW(_, _, imm) => -0x800 <= imm < 0x800,
        Operation::LBU(_, _, imm) => -0x800 <= imm < 0x800,
        Operation::LHU(_, _, imm) => -0x800 <= imm < 0x800,
        Operation::JALR(_, _, imm) => -0x800 <= imm < 0x800,
        Operation::SB(_, _, imm) => -0x800 <= imm < 0x800,
        Operation::SH(_, _, imm) => -0x800 <= imm < 0x800,
        Operation::SW(_, _, imm) => -0x800 <= imm < 0x800,
        Operation::SLLI(_, _, shamt) => 0 <= shamt < 32,
        Operation::SRLI(_, _, shamt) => 0 <= shamt < 32,
        Operation::SRAI(_, _, shamt) => 0 <= shamt < 32,
        Operation::BEQ(_, _, imm) => -0x1000 <= imm < 0x1000 && imm % 2 == 0,
        Operation::BNE(_, _, imm) => -0x1000 <= imm < 0x1000 && imm % 2 == 0,
        Operation::BLT(_, _, imm) => -0x1000 <= imm < 0x1000 && imm % 2 == 0,
        Operation::BGE(_, _, imm) => -0x1000 <= imm < 0x1000 && imm % 2 == 0,
        Operation::BLTU(_, _, imm) => -0x1000 <= imm < 0x1000 && imm % 2 == 0,
        Operation::BGEU(_, _, imm) => -0x1000 <= imm < 0x1000 && imm % 2 == 0,
        Operation::LUI(_, imm) => imm % 0x1000 == 0,
        Operation::AUIPC(_, imm) => imm % 0x1000 == 0,
        Operation::JAL(_, imm) => -0x10_0000 <= imm < 0x10_0000 && imm % 2 == 0,
        _ => true,
    }
}

/// The instructions that have an encoding of their own: no register is
/// named `FP`, the second name of `S0`; the immediate fits its field; and
/// the instruction is neither `NOP` nor `HINT`, which no word decodes to.
pub open spec fn well_formed(op: Operation) -> bool {
    let parts = operand_parts(op);
    &&& parts.0 != Some(Register::FP)
    &&& parts.1 != Some(Register::FP)
    &&& parts.2 != Some(Register::FP)
    &&& immediate_fits(op)
    &&& op != Operation::NOP
    &&& op != Operation::HINT
}

proof fn r_fields(funct7: u32, rs2: u32, rs1: u32, funct3: u32, rd: u32, opcode: u32)
    by (bit_vector)
    requires
        funct7 < 128,
        rs2 < 32,
        rs1 < 32,
        funct3 < 8,
        rd < 32,
        opcode < 128,
    ensures
        ({
            let w = r_word(funct7, rs2, rs1, funct3, rd, opcode);
            &&& (w & 0x7f) as u8 == opcode
            &&& bits(w, 7, 11) == rd
            &&& bits(w, 15, 19) == rs1
            &&& bits(w, 20, 24) == rs2
            &&& bits(w, 12, 14) as u8 == funct3
            &&& bits(w, 25, 31) as u8 == funct7
        }),
{
}

proof fn i_fields(imm: i32, rs1: u32, funct3: u32, rd: u32, opcode: u32)
    by (bit_vector)
    requires
        -0x800 <= imm < 0x800,
        rs1 < 32,
        funct3 < 8,
        rd < 32,
        opcode < 128,
    ensures
        ({
            let w = i_word(imm, rs1, funct3, rd, opcode);
            &&& (w & 0x7f) as u8 == opcode
            &&& bits(w, 7, 11) == rd
            &&& bits(w, 15, 19) == rs1
            &&& bits(w, 12, 14) as u8 == funct3
            &&& sign_extended(imm_i(w), 12) == imm
            &&& w != 0x0000_0073 || (opcode == 0x73 && rd == 0 && rs1 == 0 && funct3 == 0 && imm == 0)
        }),
{
}

proof fn shift_fields(shamt: i32, rs1: u32, funct3: u32, rd: u32, opcode: u32)
    by (bit_vector)
    requires
        0 <= shamt < 32,
        rs1 < 32,
        funct3 < 8,
        rd < 32,
        opcode < 128,
    ensures
        ({
            let w = i_word(shamt, rs1, funct3, rd, opcode);
            let a = i_word(shamt | 0x400, rs1, funct3, rd, opcode);
            &&& (w & 0x7f) as u8 == opcode
            &&& bits(w, 7, 11) == rd
            &&& bits(w, 15, 19) == rs1
            &&& bits(w, 12, 14) as u8 == funct3
            &&& bits(imm_i(w), 0, 4) as i32 == shamt
            &&& imm_i(w) >> 10 == 0
            &&& (a & 0x7f) as u8 == opcode
            &&& bits(a, 7, 11) == rd
            &&& bits(a, 15, 19) == rs1
            &&& bits(a, 12, 14) as u8 == funct3
            &&& bits(imm_i(a), 0, 4) as i32 == shamt
            &&& imm_i(a) >> 10 == 1
        }),
{
}

proof fn s_fields(imm: i32, rs2: u32, rs1: u32, funct3: u32, opcode: u32)
    by (bit_vector)
    requires
        -0x800 <= imm < 0x800,
        rs2 < 32,
        rs1 < 32,
        funct3 < 8,
        opcode < 128,
    ensures
        ({
            let w = s_word(imm, rs2, rs1, funct3, opcode);
            &&& (w & 0x7f) as u8 == opcode
            &&& bits(w, 15, 19) == rs1
            &&& bits(w, 20, 24) == rs2
            &&& bits(w, 12, 14) as u8 == funct3
            &&& sign_extended(imm_s(w), 12) == imm
        }),
{
}

proof fn b_fields(imm: i32, rs2: u32, rs1: u32, funct3: u32, opcode: u32)
    by (bit_vector)
    requires
        -0x1000 <= imm < 0x1000,
        imm & 1 == 0,
        rs2 < 32,
        rs1 < 32,
        funct3 < 8,
        opcode < 128,
    ensures
        ({
            let w = b_word(imm, rs2, rs1, funct3, opcode);
            &&& (w & 0x7f) as u8 == opcode
            &&& bits(w, 15, 19) == rs1
            &&& bits(w, 20, 24) == rs2
            &&& bits(w, 12, 14) as u8 == funct3
            &&& sign_extended(imm_b(w), 13) == imm
        }),
{
}

proof fn u_fields(imm: i32, rd: u32, opcode: u32)
    by (bit_vector)
    requires
        imm & 0xfff == 0,
        rd < 32,
        opcode < 128,
    ensures
        ({
            let w = u_word(imm, rd, opcode);
            &&& (w & 0x7f) as u8 == opcode
            &&& bits(w, 7, 11) == rd
            &&& (imm_u(w) << 12) as i32 == imm
        }),
{
}

proof fn j_fields(imm: i32, rd: u32, opcode: u32)
    by (bit_vector)
    requires
        -0x10_0000 <= imm < 0x10_0000,
        imm & 1 == 0,
        rd < 32,
        opcode < 128,
    ensures
        ({
            let w = j_word(imm, rd, opcode);
            &&& (w & 0x7f) as u8 == opcode
            &&& bits(w, 7, 11) == rd
            &&& sign_extended(imm_j(w), 21) == imm
        }),
{
}

proof fn even_and_page(imm: i32)
    by (bit_vector)
    ensures
        imm % 2 == 0 <==> imm & 1 == 0,
        imm % 0x1000 == 0 <==> imm & 0xfff == 0,
{
}

proof fn fixed_words()
    by (bit_vector)
    ensures
        (0x0000_0073u32 & 0x7f) as u8 == 0x73,
        (0x0010_0073u32 & 0x7f) as u8 == 0x73,
        (0x0000_000fu32 & 0x7f) as u8 == 0x0f,
        bits(0x0000_000fu32, 12, 14) as u8 == 0,
        i_word(0, 0, 0, 0, 0b0010011) == 0x0000_0013u32,
        i_word(1, 0, 0, 0, 0b0010011) == 0x0010_0013u32,
{
}

#[verifier::rlimit(50)]
proof fn format_r(funct7: u32, rs2: Register, rs1: Register, funct3: u32, rd: Register)
    requires
        funct7 < 128,
        funct3 < 8,
        rs2 != Register::FP,
        rs1 != Register::FP,
        rd != Register::FP,
    ensures
        format_of(r_word(funct7, num(rs2), num(rs1), funct3, num(rd), 0b0110011)) == Ok::<
            InstructionType,
            ParseError,
        >(
            InstructionType::RType {
                rd,
                rs1,
                rs2,
                funct3: funct3 as u8,
                funct7: funct7 as u8,
                opcode: 0b0110011,
            },
        ),
{
    rd.numbered_index();
    rs1.numbered_index();
    rs2.numbered_index();
    r_fields(funct7, num(rs2), num(rs1), funct3, num(rd), 0b0110011);
}

#[verifier::rlimit(50)]
proof fn format_i(imm: i32, rs1: Register, funct3: u32, rd: Register, opcode: u32)
    requires
        -0x800 <= imm < 0x800,
        funct3 < 8,
        rs1 != Register::FP,
        rd != Register::FP,
        opcode == 0b0000011 || opcode == 0b0010011 || opcode == 0b1100111,
    ensures
        ({
            let w = i_word(imm, num(rs1), funct3, num(rd), opcode);
            &&& format_of(w) == Ok::<InstructionType, ParseError>(
                InstructionType::IType {
                    rd,
                    rs1,
                    imm: imm_i(w),
                    funct3: funct3 as u8,
                    opcode: opcode as u8,
                },
            )
            &&& sign_extended(imm_i(w), 12) == imm
        }),
{
    rd.numbered_index();
    rs1.numbered_index();
    i_fields(imm, num(rs1), funct3, num(rd), opcode);
}

#[verifier::rlimit(50)]
proof fn format_shift(shamt: i32, rs1: Register, funct3: u32, rd: Register)
    requires
        0 <= shamt < 32,
        funct3 < 8,
        rs1 != Register::FP,
        rd != Register::FP,
    ensures
        ({
            let w = i_word(shamt, num(rs1), funct3, num(rd), 0b0010011);
            let a = i_word(shamt | 0x400, num(rs1), funct3, num(rd), 0b0010011);
            &&& format_of(w) == Ok::<InstructionType, ParseError>(
                InstructionType::IType {
                    rd,
                    rs1,
                    imm: imm_i(w),
                    funct3: funct3 as u8,
                    opcode: 0b0010011,
                },
            )
            &&& bits(imm_i(w), 0, 4) as i32 == shamt
            &&& imm_i(w) >> 10 == 0
            &&& format_of(a) == Ok::<InstructionType, ParseError>(
                InstructionType::IType {
                    rd,
                    rs1,
                    imm: imm_i(a),
                    funct3: funct3 as u8,
                    opcode: 0b0010011,
                },
            )
            &&& bits(imm_i(a), 0, 4) as i32 == shamt
            &&& imm_i(a) >> 10 == 1
        }),
{
    rd.numbered_index();
    rs1.numbered_index();
    shift_fields(shamt, num(rs1), funct3, num(rd), 0b0010011);
}

#[verifier::rlimit(50)]
proof fn format_s(imm: i32, rs2: Register, rs1: Register, funct3: u32)
    requires
        -0x800 <= imm < 0x800,
        funct3 < 8,
        rs1 != Register::FP,
        rs2 != Register::FP,
    ensures
        ({
            let w = s_word(imm, num(rs2), num(rs1), funct3, 0b0100011);
            &&& format_of(w) == Ok::<InstructionType, ParseError>(
                InstructionType::SType {
                    rs1,
                    rs2,
                    imm: imm_s(w),
                    funct3: funct3 as u8,
                    opcode: 0b0100011,
                },
            )
            &&& sign_extended(imm_s(w), 12) == imm
        }),
{
    rs1.numbered_index();
    rs2.numbered_index();
    s_fields(imm, num(rs2), num(rs1), funct3, 0b0100011);
}

#[verifier::rlimit(50)]
proof fn format_b(imm: i32, rs2: Register, rs1: Register, funct3: u32)
    requires
        -0x1000 <= imm < 0x1000,
        imm % 2 == 0,
        funct3 < 8,
        rs1 != Register::FP,
        rs2 != Register::FP,
    ensures
        ({
            let w = b_word(imm, num(rs2), num(rs1), funct3, 0b1100011);
            &&& format_of(w) == Ok::<InstructionType, ParseError>(
                InstructionType::BType {
                    rs1,
                    rs2,
                    imm: imm_b(w),
                    funct3: funct3 as u8,
                    opcode: 0b1100011,
                },
            )
            &&& sign_extended(imm_b(w), 13) == imm
        }),
{
    rs1.numbered_index();
    rs2.numbered_index();
    even_and_page(imm);
    b_fields(imm, num(rs2), num(rs1), funct3, 0b1100011);
}

#[verifier::rlimit(50)]
proof fn format_u(imm: i32, rd: Register, opcode: u32)
    requires
        imm % 0x1000 == 0,
        rd != Register::FP,
        opcode == 0b0110111 || opcode == 0b0010111,
    ensures
        ({
            let w = u_word(imm, num(rd), opcode);
            &&& format_of(w) == Ok::<InstructionType, ParseError>(
                InstructionType::UType { rd, imm: imm_u(w), opcode: opcode as u8 },
            )
            &&& (imm_u(w) << 12) as i32 == imm
        }),
{
    rd.numbered_index();
    even_and_page(imm);
    u_fields(imm, num(rd), opcode);
}

#[verifier::rlimit(50)]
proof fn format_j(imm: i32, rd: Register)
    requires
        -0x10_0000 <= imm < 0x10_0000,
        imm % 2 == 0,
        rd != Register::FP,
    ensures
        ({
            let w = j_word(imm, num(rd), 0b1101111);
            &&& format_of(w) == Ok::<InstructionType, ParseError>(
                InstructionType::JType { rd, imm: imm_j(w), opcode: 0b1101111 },
            )
            &&& sign_extended(imm_j(w), 21) == imm
        }),
{
    rd.numbered_index();
    even_and_page(imm);
    j_fields(imm, num(rd), 0b1101111);
}

#[verifier::rlimit(50)]
proof fn format_fixed()
    ensures
        decode(0x0000_0073) == Ok::<Operation, ParseError>(Operation::ECALL),
        decode(0x0010_0073) == Ok::<Operation, ParseError>(Operation::EBREAK),
        decode(0x0000_000f) == Ok::<Operation, ParseError>(Operation::FENCE),
{
    fixed_words();
}

spec fn in_sums(op: Operation) -> bool {
    match op {
        Operation::ADD(..) => true,
        Operation::SUB(..) => true,
        Operation::SLL(..) => true,
        Operation::SLT(..) => true,
        Operation::SLTU(..) => true,
        _ => false,
    }
}

#[verifier::rlimit(50)]
proof fn sums(op: Operation)
    requires
        well_formed(op),
        in_sums(op),
    ensures
        decode(encode(op)) == Ok::<Operation, ParseError>(op),
{
    match op {
        Operation::ADD(rd, rs1, rs2) => {
            format_r(0, rs2, rs1, 0, rd);
        },
        Operation::SUB(rd, rs1, rs2) => {
            format_r(32, rs2, rs1, 0, rd);
        },
        Operation::SLL(rd, rs1, rs2) => {
            format_r(0, rs2, rs1, 1, rd);
        },
        Operation::SLT(rd, rs1, rs2) => {
            format_r(0, rs2, rs1, 2, rd);
        },
        Operation::SLTU(rd, rs1, rs2) => {
            format_r(0, rs2, rs1, 3, rd);
        },
        _ => {},
    }
}

spec fn in_logic(op: Operation) -> bool {
    match op {
        Operation::XOR(..) => true,
        Operation::SRL(..) => true,
        Operation::SRA(..) => true,
        Operation::OR(..) => true,
        Operation::AND(..) => true,
        _ => false,
    }
}

#[verifier::rlimit(50)]
proof fn logic(op: Operation)
    requires
        well_formed(op),
        in_logic(op),
    ensures
        decode(encode(op)) == Ok::<Operation, ParseError>(op),
{
    match op {
        Operation::XOR(rd, rs1, rs2) => {
            format_r(0, rs2, rs1, 4, rd);
        },
        Operation::SRL(rd, rs1, rs2) => {
            format_r(0, rs2, rs1, 5, rd);
        },
        Operation::SRA(rd, rs1, rs2) => {
            format_r(32, rs2, rs1, 5, rd);
        },
        Operation::OR(rd, rs1, rs2) => {
            format_r(0, rs2, rs1, 6, rd);
        },
        Operation::AND(rd, rs1, rs2) => {
            format_r(0, rs2, rs1, 7, rd);
        },
        _ => {},
    }
}

spec fn in_products(op: Operation) -> bool {
    match op {
        Operation::MUL(..) => true,
        Operation::MULH(..) => true,
        Operation::MULHSU(..) => true,
        Operation::MULHU(..) => true,
        _ => false,
    }
}

#[verifier::rlimit(50)]
proof fn products(op: Operation)
    requires
        well_formed(op),
        in_products(op),
    ensures
        decode(encode(op)) == Ok::<Operation, ParseError>(op),
{
    match op {
        Operation::MUL(rd, rs1, rs2) => {
            format_r(1, rs2, rs1, 0, rd);
        },
        Operation::MULH(rd, rs1, rs2) => {
            format_r(1, rs2, rs1, 1, rd);
        },
        Operation::MULHSU(rd, rs1, rs2) => {
            format_r(1, rs2, rs1, 2, rd);
        },
        Operation::MULHU(rd, rs1, rs2) => {
            format_r(1, rs2, rs1, 3, rd);
        },
        _ => {},
    }
}

spec fn in_quotients(op: Operation) -> bool {
    match op {
        Operation::DIV(..) => true,
        Operation::DIVU(..) => true,
        Operation::REM(..) => true,
        Operation::REMU(..) => true,
        _ => false,
    }
}

#[verifier::rlimit(50)]
proof fn quotients(op: Operation)
    requires
        well_formed(op),
        in_quotients(op),
    ensures
        decode(encode(op)) == Ok::<Operation, ParseError>(op),
{
    match op {
        Operation::DIV(rd, rs1, rs2) => {
            format_r(1, rs2, rs1, 4, rd);
        },
        Operation::DIVU(rd, rs1, rs2) => {
            format_r(1, rs2, rs1, 5, rd);
        },
        Operation::REM(rd, rs1, rs2) => {
            format_r(1, rs2, rs1, 6, rd);
        },
        Operation::REMU(rd, rs1, rs2) => {
            format_r(1, rs2, rs1, 7, rd);
        },
        _ => {},
    }
}

spec fn in_immediates(op: Operation) -> bool {
    match op {
        Operation::ADDI(..) => true,
        Operation::SLTI(..) => true,
        Operation::SLTIU(..) => true,
        Operation::XORI(..) => true,
        Operation::ORI(..) => true,
        Operation::ANDI(..) => true,
        _ => false,
    }
}

#[verifier::rlimit(50)]
proof fn immediates(op: Operation)
    requires
        well_formed(op),
        in_immediates(op),
    ensures
        decode(encode(op)) == Ok::<Operation, ParseError>(op),
{
    match op {
        Operation::ADDI(rd, rs1, imm) => {
            format_i(imm, rs1, 0, rd, 0b0010011);
        },
        Operation::SLTI(rd, rs1, imm) => {
            format_i(imm, rs1, 2, rd, 0b0010011);
        },
        Operation::SLTIU(rd, rs1, imm) => {
            format_i(imm, rs1, 3, rd, 0b0010011);
        },
        Operation::XORI(rd, rs1, imm) => {
            format_i(imm, rs1, 4, rd, 0b0010011);
        },
        Operation::ORI(rd, rs1, imm) => {
            format_i(imm, rs1, 6, rd, 0b0010011);
        },
        Operation::ANDI(rd, rs1, imm) => {
            format_i(imm, rs1, 7, rd, 0b0010011);
        },
        _ => {},
    }
}

spec fn in_shifts(op: Operation) -> bool {
    match op {
        Operation::SLLI(..) => true,
        Operation::SRLI(..) => true,
        Operation::SRAI(..) => true,
        _ => false,
    }
}

#[verifier::rlimit(50)]
proof fn shifts(op: Operation)
    requires
        well_formed(op),
        in_shifts(op),
    ensures
        decode(encode(op)) == Ok::<Operation, ParseError>(op),
{
    match op {
        Operation::SLLI(rd, rs1, shamt) => {
            format_shift(shamt, rs1, 1, rd);
        },
        Operation::SRLI(rd, rs1, shamt) => {
            format_shift(shamt, rs1, 5, rd);
        },
        Operation::SRAI(rd, rs1, shamt) => {
            format_shift(shamt, rs1, 5, rd);
        },
        _ => {},
    }
}

spec fn in_loads(op: Operation) -> bool {
    match op {
        Operation::LB(..) => true,
        Operation::LH(..) => true,
        Operation::LW(..) => true,
        Operation::LBU(..) => true,
        Operation::LHU(..) => true,
        Operation::JALR(..) => true,
        _ => false,
    }
}

#[verifier::rlimit(50)]
proof fn loads(op: Operation)
    requires
        well_formed(op),
        in_loads(op),
    ensures
        decode(encode(op)) == Ok::<Operation, ParseError>(op),
{
    match op {
        Operation::LB(rd, rs1, imm) => {
            format_i(imm, rs1, 0, rd, 0b0000011);
        },
        Operation::LH(rd, rs1, imm) => {
            format_i(imm, rs1, 1, rd, 0b0000011);
        },
        Operation::LW(rd, rs1, imm) => {
            format_i(imm, rs1, 2, rd, 0b0000011);
        },
        Operation::LBU(rd, rs1, imm) => {
            format_i(imm, rs1, 4, rd, 0b0000011);
        },
        Operation::LHU(rd, rs1, imm) => {
            format_i(imm, rs1, 5, rd, 0b0000011);
        },
        Operation::JALR(rd, rs1, imm) => {
            format_i(imm, rs1, 0, rd, 0b1100111);
        },
        _ => {},
    }
}

spec fn in_stores(op: Operation) -> bool {
    match op {
        Operation::SB(..) => true,
        Operation::SH(..) => true,
        Operation::SW(..) => true,
        _ => false,
    }
}

#[verifier::rlimit(50)]
proof fn stores(op: Operation)
    requires
        well_formed(op),
        in_stores(op),
    ensures
        decode(encode(op)) == Ok::<Operation, ParseError>(op),
{
    match op {
        Operation::SB(rs1, rs2, imm) => {
            format_s(imm, rs2, rs1, 0);
        },
        Operation::SH(rs1, rs2, imm) => {
            format_s(imm, rs2, rs1, 1);
        },
        Operation::SW(rs1, rs2, imm) => {
            format_s(imm, rs2, rs1, 2);
        },
        _ => {},
    }
}

spec fn in_branches(op: Operation) -> bool {
    match op {
        Operation::BEQ(..) => true,
        Operation::BNE(..) => true,
        Operation::BLT(..) => true,
        Operation::BGE(..) => true,
        Operation::BLTU(..) => true,
        Operation::BGEU(..) => true,
        _ => false,
    }
}

#[verifier::rlimit(50)]
proof fn branches(op: Operation)
    requires
        well_formed(op),
        in_branches(op),
    ensures
        decode(encode(op)) == Ok::<Operation, ParseError>(op),
{
    match op {
        Operation::BEQ(rs1, rs2, imm) => {
            format_b(imm, rs2, rs1, 0);
        },
        Operation::BNE(rs1, rs2, imm) => {
            format_b(imm, rs2, rs1, 1);
        },
        Operation::BLT(rs1, rs2, imm) => {
            format_b(imm, rs2, rs1, 4);
        },
        Operation::BGE(rs1, rs2, imm) => {
            format_b(imm, rs2, rs1, 5);
        },
        Operation::BLTU(rs1, rs2, imm) => {
            format_b(imm, rs2, rs1, 6);
        },
        Operation::BGEU(rs1, rs2, imm) => {
            format_b(imm, rs2, rs1, 7);
        },
        _ => {},
    }
}

spec fn in_jumps(op: Operation) -> bool {
    match op {
        Operation::LUI(..) => true,
        Operation::AUIPC(..) => true,
        Operation::JAL(..) => true,
        _ => false,
    }
}

#[verifier::rlimit(50)]
proof fn jumps(op: Operation)
    requires
        well_formed(op),
        in_jumps(op),
    ensures
        decode(encode(op)) == Ok::<Operation, ParseError>(op),
{
    match op {
        Operation::LUI(rd, imm) => {
            format_u(imm, rd, 0b0110111);
        },
        Operation::AUIPC(rd, imm) => {
            format_u(imm, rd, 0b0010111);
        },
        Operation::JAL(rd, imm) => {
            format_j(imm, rd);
        },
        _ => {},
    }
}

/// The immediates that the decoder assembles from a word fit their fields.
proof fn immediates_fit(w: u32)
    by (bit_vector)
    ensures
        -0x800 <= sign_extended(imm_i(w), 12) < 0x800,
        0 <= (bits(imm_i(w), 0, 4) as i32) < 32,
        -0x800 <= sign_extended(imm_s(w), 12) < 0x800,
        -0x1000 <= sign_extended(imm_b(w), 13) < 0x1000,
        sign_extended(imm_b(w), 13) & 1 == 0,
        ((imm_u(w) << 12) as i32) & 0xfff == 0,
        -0x10_0000 <= sign_extended(imm_j(w), 21) < 0x10_0000,
        sign_extended(imm_j(w), 21) & 1 == 0,
{
}

proof fn selected_r(
    rd: Register,
    rs1: Register,
    rs2: Register,
    funct3: u8,
    funct7: u8,
    opcode: u8,
    w: u32,
)
    requires
        rd != Register::FP,
        rs1 != Register::FP,
        rs2 != Register::FP,
    ensures
        select(InstructionType::RType { rd, rs1, rs2, funct3, funct7, opcode }, w) matches Ok(op)
            ==> well_formed(op),
{
}

proof fn selected_i(rd: Register, rs1: Register, imm: u32, funct3: u8, opcode: u8, w: u32)
    requires
        rd != Register::FP,
        rs1 != Register::FP,
        -0x800 <= sign_extended(imm, 12) < 0x800,
        0 <= (bits(imm, 0, 4) as i32) < 32,
    ensures
        select(InstructionType::IType { rd, rs1, imm, funct3, opcode }, w) matches Ok(op)
            ==> well_formed(op),
{
}

proof fn selected_s(rs1: Register, rs2: Register, imm: u32, funct3: u8, opcode: u8, w: u32)
    requires
        rs1 != Register::FP,
        rs2 != Register::FP,
        -0x800 <= sign_extended(imm, 12) < 0x800,
    ensures
        select(InstructionType::SType { rs1, rs2, imm, funct3, opcode }, w) matches Ok(op)
            ==> well_formed(op),
{
}

proof fn selected_b(rs1: Register, rs2: Register, imm: u32, funct3: u8, opcode: u8, w: u32)
    requires
        rs1 != Register::FP,
        rs2 != Register::FP,
        -0x1000 <= sign_extended(imm, 13) < 0x1000,
        sign_extended(imm, 13) % 2 == 0,
    ensures
        select(InstructionType::BType { rs1, rs2, imm, funct3, opcode }, w) matches Ok(op)
            ==> well_formed(op),
{
}

proof fn selected_u(rd: Register, imm: u32, opcode: u8, w: u32)
    requires
        rd != Register::FP,
        ((imm << 12) as i32) % 0x1000 == 0,
    ensures
        select(InstructionType::UType { rd, imm, opcode }, w) matches Ok(op) ==> well_formed(op),
{
}

proof fn selected_j(rd: Register, imm: u32, opcode: u8, w: u32)
    requires
        rd != Register::FP,
        -0x10_0000 <= sign_extended(imm, 21) < 0x10_0000,
        sign_extended(imm, 21) % 2 == 0,
    ensures
        select(InstructionType::JType { rd, imm, opcode }, w) matches Ok(op) ==> well_formed(op),
{
}

/// Every instruction that the decoder gives is well-formed: it is one of
/// those that decoding gives back from their word.
pub proof fn decoded_is_well_formed(w: u32)
    ensures
        decode(w) matches Ok(op) ==> well_formed(op),
{
    crate::decode::field_bounds(w);
    immediates_fit(w);
    Register::index_numbered(bits(w, 7, 11) as int);
    Register::index_numbered(bits(w, 15, 19) as int);
    Register::index_numbered(bits(w, 20, 24) as int);
    even_and_page(sign_extended(imm_b(w), 13));
    even_and_page(sign_extended(imm_j(w), 21));
    even_and_page((imm_u(w) << 12) as i32);
    match format_of(w) {
        Ok(InstructionType::RType { rd, rs1, rs2, funct3, funct7, opcode }) => {
            selected_r(rd, rs1, rs2, funct3, funct7, opcode, w);
        },
        Ok(InstructionType::IType { rd, rs1, imm, funct3, opcode }) => {
            selected_i(rd, rs1, imm, funct3, opcode, w);
        },
        Ok(InstructionType::SType { rs1, rs2, imm, funct3, opcode }) => {
            selected_s(rs1, rs2, imm, funct3, opcode, w);
        },
        Ok(InstructionType::BType { rs1, rs2, imm, funct3, opcode }) => {
            selected_b(rs1, rs2, imm, funct3, opcode, w);
        },
        Ok(InstructionType::UType { rd, imm, opcode }) => {
            selected_u(rd, imm, opcode, w);
        },
        Ok(InstructionType::JType { rd, imm, opcode }) => {
            selected_j(rd, imm, opcode, w);
        },
        Err(_) => {},
    }
}

/// Decoding undoes encoding: the word of a well-formed instruction decodes
/// to that instruction.
pub proof fn decode_encode(op: Operation)
    requires
        well_formed(op),
    ensures
        decode(encode(op)) == Ok::<Operation, ParseError>(op),
{
    if in_sums(op) {
        sums(op);
    } else if in_logic(op) {
        logic(op);
    } else if in_products(op) {
        products(op);
    } else if in_quotients(op) {
        quotients(op);
    } else if in_immediates(op) {
        immediates(op);
    } else if in_shifts(op) {
        shifts(op);
    } else if in_loads(op) {
        loads(op);
    } else if in_stores(op) {
        stores(op);
    } else if in_branches(op) {
        branches(op);
    } else if in_jumps(op) {
        jumps(op);
    } else {
        format_fixed();
    }
}

/// The number of a register as a field of a word.
fn field(r: Register) -> (n: u32)
    ensures
        n == num(r),
        n < 32,
{
    r.to_num() as u32
}

/// The word that a layout's fields make.
fn assemble(layout: Layout) -> (w: u32)
    ensures
        w == assembled(layout),
{
    match layout {
        Layout::R { funct7, rs2, rs1, funct3, rd } => (funct7 << 25) | (field(rs2) << 20) | (field(
            rs1,
        ) << 15) | (funct3 << 12) | (field(rd) << 7) | 0b0110011,
        Layout::I { imm, rs1, funct3, rd, opcode } => {
            #[verifier::truncate]
            let bits = imm as u32;
            ((bits & 0xfff) << 20) | (field(rs1) << 15) | (funct3 << 12) | (field(rd) << 7) | opcode
        },
        Layout::S { imm, rs2, rs1, funct3 } => {
            #[verifier::truncate]
            let bits = imm as u32;
            (((bits >> 5) & 0x7f) << 25) | (field(rs2) << 20) | (field(rs1) << 15) | (funct3 << 12)
                | ((bits & 0x1f) << 7) | 0b0100011
        },
        Layout::B { imm, rs2, rs1, funct3 } => {
            #[verifier::truncate]
            let bits = imm as u32;
            (((bits >> 12) & 1) << 31) | (((bits >> 5) & 0x3f) << 25) | (field(rs2) << 20) | (field(
                rs1,
            ) << 15) | (funct3 << 12) | (((bits >> 1) & 0xf) << 8) | (((bits >> 11) & 1) << 7)
                | 0b1100011
        },
        Layout::U { imm, rd, opcode } => {
            #[verifier::truncate]
            let bits = imm as u32;
            (bits & 0xffff_f000) | (field(rd) << 7) | opcode
        },
        Layout::J { imm, rd } => {
            #[verifier::truncate]
            let bits = imm as u32;
            (((bits >> 20) & 1) << 31) | (((bits >> 1) & 0x3ff) << 21) | (((bits >> 11) & 1) << 20)
                | (((bits >> 12) & 0xff) << 12) | (field(rd) << 7) | 0b1101111
        },
        Layout::Fixed(w) => w,
    }
}

impl Operation {
    /// The fields of the instruction.
    fn layout(&self) -> (layout: Layout)
        ensures
            layout == layout_of(*self),
    {
        match *self {
            Operation::ADD(rd, rs1, rs2) => Layout::R { funct7: 0, rs2, rs1, funct3: 0, rd },
            Operation::SUB(rd, rs1, rs2) => Layout::R { funct7: 32, rs2, rs1, funct3: 0, rd },
            Operation::SLL(rd, rs1, rs2) => Layout::R { funct7: 0, rs2, rs1, funct3: 1, rd },
            Operation::SLT(rd, rs1, rs2) => Layout::R { funct7: 0, rs2, rs1, funct3: 2, rd },
            Operation::SLTU(rd, rs1, rs2) => Layout::R { funct7: 0, rs2, rs1, funct3: 3, rd },
            Operation::XOR(rd, rs1, rs2) => Layout::R { funct7: 0, rs2, rs1, funct3: 4, rd },
            Operation::SRL(rd, rs1, rs2) => Layout::R { funct7: 0, rs2, rs1, funct3: 5, rd },
            Operation::SRA(rd, rs1, rs2) => Layout::R { funct7: 32, rs2, rs1, funct3: 5, rd },
            Operation::OR(rd, rs1, rs2) => Layout::R { funct7: 0, rs2, rs1, funct3: 6, rd },
            Operation::AND(rd, rs1, rs2) => Layout::R { funct7: 0, rs2, rs1, funct3: 7, rd },
            Operation::MUL(rd, rs1, rs2) => Layout::R { funct7: 1, rs2, rs1, funct3: 0, rd },
            Operation::MULH(rd, rs1, rs2) => Layout::R { funct7: 1, rs2, rs1, funct3: 1, rd },
            Operation::MULHSU(rd, rs1, rs2) => Layout::R { funct7: 1, rs2, rs1, funct3: 2, rd },
            Operation::MULHU(rd, rs1, rs2) => Layout::R { funct7: 1, rs2, rs1, funct3: 3, rd },
            Operation::DIV(rd, rs1, rs2) => Layout::R { funct7: 1, rs2, rs1, funct3: 4, rd },
            Operation::DIVU(rd, rs1, rs2) => Layout::R { funct7: 1, rs2, rs1, funct3: 5, rd },
            Operation::REM(rd, rs1, rs2) => Layout::R { funct7: 1, rs2, rs1, funct3: 6, rd },
            Operation::REMU(rd, rs1, rs2) => Layout::R { funct7: 1, rs2, rs1, funct3: 7, rd },
            Operation::ADDI(rd, rs1, imm) => Layout::I { imm, rs1, funct3: 0, rd, opcode: 0b0010011 },
            Operation::SLTI(rd, rs1, imm) => Layout::I { imm, rs1, funct3: 2, rd, opcode: 0b0010011 },
            Operation::SLTIU(rd, rs1, imm) => Layout::I { imm, rs1, funct3: 3, rd, opcode: 0b0010011 },
            Operation::XORI(rd, rs1, imm) => Layout::I { imm, rs1, funct3: 4, rd, opcode: 0b0010011 },
            Operation::ORI(rd, rs1, imm) => Layout::I { imm, rs1, funct3: 6, rd, opcode: 0b0010011 },
            Operation::ANDI(rd, rs1, imm) => Layout::I { imm, rs1, funct3: 7, rd, opcode: 0b0010011 },
            Operation::SLLI(rd, rs1, shamt) => Layout::I { imm: shamt, rs1, funct3: 1, rd, opcode: 0b0010011 },
            Operation::SRLI(rd, rs1, shamt) => Layout::I { imm: shamt, rs1, funct3: 5, rd, opcode: 0b0010011 },
            Operation::SRAI(rd, rs1, shamt) => Layout::I {
                imm: shamt | 0x400,
                rs1,
                funct3: 5,
                rd,
                opcode: 0b0010011,
            },
            Operation::LB(rd, rs1, imm) => Layout::I { imm, rs1, funct3: 0, rd, opcode: 0b0000011 },
            Operation::LH(rd, rs1, imm) => Layout::I { imm, rs1, funct3: 1, rd, opcode: 0b0000011 },
            Operation::LW(rd, rs1, imm) => Layout::I { imm, rs1, funct3: 2, rd, opcode: 0b0000011 },
            Operation::LBU(rd, rs1, imm) => Layout::I { imm, rs1, funct3: 4, rd, opcode: 0b0000011 },
            Operation::LHU(rd, rs1, imm) => Layout::I { imm, rs1, funct3: 5, rd, opcode: 0b0000011 },
            Operation::JALR(rd, rs1, imm) => Layout::I { imm, rs1, funct3: 0, rd, opcode: 0b1100111 },
            Operation::SB(rs1, rs2, imm) => Layout::S { imm, rs2, rs1, funct3: 0 },
            Operation::SH(rs1, rs2, imm) => Layout::S { imm, rs2, rs1, funct3: 1 },
            Operation::SW(rs1, rs2, imm) => Layout::S { imm, rs2, rs1, funct3: 2 },
            Operation::BEQ(rs1, rs2, imm) => Layout::B { imm, rs2, rs1, funct3: 0 },
            Operation::BNE(rs1, rs2, imm) => Layout::B { imm, rs2, rs1, funct3: 1 },
            Operation::BLT(rs1, rs2, imm) => Layout::B { imm, rs2, rs1, funct3: 4 },
            Operation::BGE(rs1, rs2, imm) => Layout::B { imm, rs2, rs1, funct3: 5 },
            Operation::BLTU(rs1, rs2, imm) => Layout::B { imm, rs2, rs1, funct3: 6 },
            Operation::BGEU(rs1, rs2, imm) => Layout::B { imm, rs2, rs1, funct3: 7 },
            Operation::LUI(rd, imm) => Layout::U { imm, rd, opcode: 0b0110111 },
            Operation::AUIPC(rd, imm) => Layout::U { imm, rd, opcode: 0b0010111 },
            Operation::JAL(rd, imm) => Layout::J { imm, rd },
            Operation::ECALL => Layout::Fixed(0x0000_0073),
            Operation::EBREAK => Layout::Fixed(0x0010_0073),
            Operation::FENCE => Layout::Fixed(0x0000_000f),
            Operation::NOP => Layout::Fixed(0x0000_0013),
            Operation::HINT => Layout::Fixed(0x0010_0013),
        }
    }

    /// The word that stands for the instruction.
    pub fn encode(&self) -> (w: u32)
        ensures
            w == encode(*self),
    {
        proof {
            encode_by_layout(*self);
        }
        assemble(self.layout())
    }
}

} // verus!

use remu::decode::ParseError;
use remu::opcode::{sign_extend, Operation};
use remu::register::Register;

fn decode(word: u32) -> Result<Operation, ParseError> {
    Operation::from_bytes(&word.to_le_bytes())
}

#[test]
fn sign_extend_test() {
    assert_eq!(sign_extend(0xFF, 8), -1);
}

#[test]
fn no_sign_extend_test() {
    assert_eq!(sign_extend(0x7F, 8), 0x7F);
}

#[test]
fn sign_extend_ignores_bits_above_the_field() {
    assert_eq!(sign_extend(0xFFFF_F7FF, 12), 0x7FF);
    assert_eq!(sign_extend(0x0000_0800, 12), -2048);
    assert_eq!(sign_extend(0x8000_0000, 32), i32::MIN);
    assert_eq!(sign_extend(1, 1), -1);
}

#[test]
fn decodes_addi() {
    assert_eq!(decode(0x02A0_0513), Ok(Operation::ADDI(Register::A0, Register::Zero, 42)));
    // ADDI T1, T1, -1
    assert_eq!(decode(0xFFF3_0313), Ok(Operation::ADDI(Register::T1, Register::T1, -1)));
}

#[test]
fn decodes_jalr_ret() {
    assert_eq!(decode(0x0000_8067), Ok(Operation::JALR(Register::Zero, Register::RA, 0)));
}

#[test]
fn decodes_register_operations_by_funct7() {
    // rd = A0, rs1 = A1, rs2 = A2
    assert_eq!(decode(0x00C5_8533), Ok(Operation::ADD(Register::A0, Register::A1, Register::A2)));
    assert_eq!(decode(0x40C5_8533), Ok(Operation::SUB(Register::A0, Register::A1, Register::A2)));
    assert_eq!(decode(0x02C5_8533), Ok(Operation::MUL(Register::A0, Register::A1, Register::A2)));
    assert_eq!(decode(0x00C5_D533), Ok(Operation::SRL(Register::A0, Register::A1, Register::A2)));
    assert_eq!(decode(0x40C5_D533), Ok(Operation::SRA(Register::A0, Register::A1, Register::A2)));
    assert_eq!(decode(0x02C5_D533), Ok(Operation::DIVU(Register::A0, Register::A1, Register::A2)));
    assert_eq!(decode(0x02C5_C533), Ok(Operation::DIV(Register::A0, Register::A1, Register::A2)));
    assert_eq!(decode(0x02C5_E533), Ok(Operation::REM(Register::A0, Register::A1, Register::A2)));
    assert_eq!(decode(0x02C5_F533), Ok(Operation::REMU(Register::A0, Register::A1, Register::A2)));
    assert_eq!(decode(0x02C5_9533), Ok(Operation::MULH(Register::A0, Register::A1, Register::A2)));
    assert_eq!(
        decode(0x02C5_A533),
        Ok(Operation::MULHSU(Register::A0, Register::A1, Register::A2))
    );
    assert_eq!(decode(0x02C5_B533), Ok(Operation::MULHU(Register::A0, Register::A1, Register::A2)));
}

#[test]
fn unknown_funct7_is_an_invalid_instruction() {
    assert_eq!(decode(0x08C5_8533), Err(ParseError::InvalidInstruction(0x08C5_8533)));
}

#[test]
fn decodes_shifts_by_immediate() {
    // SLLI A0, A1, 3
    assert_eq!(decode(0x0035_9513), Ok(Operation::SLLI(Register::A0, Register::A1, 3)));
    // SRLI A0, A1, 31
    assert_eq!(decode(0x01F5_D513), Ok(Operation::SRLI(Register::A0, Register::A1, 31)));
    // SRAI A0, A1, 31
    assert_eq!(decode(0x41F5_D513), Ok(Operation::SRAI(Register::A0, Register::A1, 31)));
    // bit 31 set on a right shift
    assert_eq!(decode(0x81F5_D513), Err(ParseError::InvalidInstruction(0x81F5_D513)));
}

#[test]
fn decodes_upper_immediates_shifted_into_place() {
    // LUI A0, 0xFFFFF
    assert_eq!(decode(0xFFFF_F537), Ok(Operation::LUI(Register::A0, -4096)));
    // AUIPC RA, 1
    assert_eq!(decode(0x0000_1097), Ok(Operation::AUIPC(Register::RA, 0x1000)));
}

#[test]
fn decodes_jal_with_a_21_bit_offset() {
    // JAL RA, 0x800
    assert_eq!(decode(0x0010_00EF), Ok(Operation::JAL(Register::RA, 0x800)));
    // JAL Zero, -4
    assert_eq!(decode(0xFFDF_F06F), Ok(Operation::JAL(Register::Zero, -4)));
}

#[test]
fn decodes_branches_with_a_13_bit_offset() {
    // BEQ Zero, Zero, -4
    assert_eq!(decode(0xFE00_0EE3), Ok(Operation::BEQ(Register::Zero, Register::Zero, -4)));
    // BNE A0, A1, 8
    assert_eq!(decode(0x00B5_1463), Ok(Operation::BNE(Register::A0, Register::A1, 8)));
    // BLTU A0, A1, 8
    assert_eq!(decode(0x00B5_6463), Ok(Operation::BLTU(Register::A0, Register::A1, 8)));
}

#[test]
fn decodes_loads_and_stores() {
    // LB A0, -1(SP)
    assert_eq!(decode(0xFFF1_0503), Ok(Operation::LB(Register::A0, Register::SP, -1)));
    // LHU A0, 2(SP)
    assert_eq!(decode(0x0021_5503), Ok(Operation::LHU(Register::A0, Register::SP, 2)));
    // SB T1, 0(T1)
    assert_eq!(decode(0x0063_0023), Ok(Operation::SB(Register::T1, Register::T1, 0)));
    // SW A0, -4(SP)
    assert_eq!(decode(0xFEA1_2E23), Ok(Operation::SW(Register::SP, Register::A0, -4)));
}

#[test]
fn decodes_system_instructions() {
    assert_eq!(decode(0x0000_0073), Ok(Operation::ECALL));
    assert_eq!(decode(0x0010_0073), Ok(Operation::EBREAK));
    assert_eq!(decode(0x0020_0073), Err(ParseError::InvalidInstruction(0x0020_0073)));
    assert_eq!(decode(0x0FF0_000F), Ok(Operation::FENCE));
}

#[test]
fn instructions_that_write_zero_decode_as_themselves() {
    // the word of the no-operation
    assert_eq!(
        decode(0x0000_0013),
        Ok(Operation::ADDI(Register::Zero, Register::Zero, 0))
    );
    assert_eq!(
        decode(0x0010_0013),
        Ok(Operation::ADDI(Register::Zero, Register::Zero, 1))
    );
    assert_eq!(
        decode(0x00C5_8033),
        Ok(Operation::ADD(Register::Zero, Register::A1, Register::A2))
    );
    assert_eq!(decode(0x0000_1037), Ok(Operation::LUI(Register::Zero, 0x1000)));
    assert_eq!(decode(0x02C5_8033), Ok(Operation::MUL(Register::Zero, Register::A1, Register::A2)));
}

#[test]
fn unknown_opcode_is_reported_with_the_opcode() {
    assert_eq!(decode(0xFFFF_FFFF), Err(ParseError::InvalidOpcode(0x7F)));
    assert_eq!(decode(0x0000_0000), Err(ParseError::InvalidOpcode(0)));
}

use remu::decode::{bitrange, bytes_to_u32, InstructionType, ParseError};
use remu::register::Register;

#[test]
fn test_bitrange() {
    assert_eq!(0xAD, bitrange(0xDEADBEEF, 16, 23));
}

#[test]
fn test_bytes_to_u32() {
    assert_eq!(0xDEADBEEF, bytes_to_u32(&[0xEF, 0xBE, 0xAD, 0xDE]));
}

#[test]
fn bitrange_takes_single_bits_and_the_whole_word() {
    assert_eq!(1, bitrange(0x8000_0000, 31, 31));
    assert_eq!(0, bitrange(0x7FFF_FFFF, 31, 31));
    assert_eq!(0xDEADBEEF, bitrange(0xDEADBEEF, 0, 31));
    assert_eq!(0xF, bitrange(0xDEADBEEF, 0, 3));
}

#[test]
fn r_type_fields_are_cut_out() {
    // ADD A0, A1, A2
    let word: u32 = 0x00C5_8533;
    let fields = InstructionType::from_bytes(&word.to_le_bytes());
    assert_eq!(
        fields,
        Ok(InstructionType::RType {
            rd: Register::A0,
            rs1: Register::A1,
            rs2: Register::A2,
            funct3: 0,
            funct7: 0,
            opcode: 0b0110011,
        })
    );
}

#[test]
fn branch_immediate_is_assembled_with_bit_0_clear() {
    // BEQ Zero, Zero, -4: imm[12|10:5] = 1111111, imm[4:1|11] = 11101
    let word: u32 = 0xFE00_0EE3;
    let fields = InstructionType::from_bytes(&word.to_le_bytes());
    assert_eq!(
        fields,
        Ok(InstructionType::BType {
            rs1: Register::Zero,
            rs2: Register::Zero,
            imm: 0x1FFC,
            funct3: 0,
            opcode: 0b1100011,
        })
    );
}

#[test]
fn jump_immediate_is_assembled_with_bit_0_clear() {
    // JAL RA, 0x800
    let word: u32 = 0x0010_00EF;
    let fields = InstructionType::from_bytes(&word.to_le_bytes());
    assert_eq!(
        fields,
        Ok(InstructionType::JType { rd: Register::RA, imm: 0x800, opcode: 0b1101111 })
    );
}

#[test]
fn unknown_opcode_is_rejected() {
    let word: u32 = 0x0000_007F;
    assert_eq!(
        InstructionType::from_bytes(&word.to_le_bytes()),
        Err(ParseError::InvalidOpcode(0x7F))
    );
}

use remu::opcode::Operation;
use remu::opcode::Operation::{
    ADD, ADDI, AND, ANDI, AUIPC, BEQ, BGE, BGEU, BLT, BLTU, BNE, DIV, DIVU, EBREAK, ECALL, FENCE,
    HINT, JAL, JALR, LB, LBU, LH, LHU, LUI, LW, MUL, MULH, MULHSU, MULHU, NOP, OR, ORI, REM, REMU,
    SB, SH, SLL, SLLI, SLT, SLTI, SLTIU, SLTU, SRA, SRAI, SRL, SRLI, SUB, SW, XOR, XORI,
};
use remu::register::Register;
use remu::register::Register::{
    A0, A1, A2, A3, A4, A5, A6, A7, GP, RA, S0, S1, S11, S2, S3, SP, T0, T1, T2, T3, T4, T5, T6,
    TP, Zero,
};

fn round_trip(op: Operation) {
    assert_eq!(Operation::from_bytes(&op.encode().to_le_bytes()), Ok(op), "{:?}", op);
}

#[test]
fn decoding_undoes_encoding() {
    for op in [
        ADD(A0, A1, A2),
        SUB(T6, S11, RA),
        SLL(S0, S1, S2),
        SLT(A0, Zero, A2),
        SLTU(A0, A1, Zero),
        XOR(GP, TP, SP),
        SRL(T0, T1, T2),
        SRA(T3, T4, T5),
        OR(A3, A4, A5),
        AND(A6, A7, S3),
        MUL(Zero, A1, A2),
        MULH(A0, A1, A2),
        MULHSU(A0, A1, A2),
        MULHU(A0, A1, A2),
        DIV(A0, A1, A2),
        DIVU(A0, A1, A2),
        REM(A0, A1, A2),
        REMU(A0, A1, A2),
        ADDI(A0, Zero, 42),
        ADDI(A0, A0, -2048),
        SLTI(A0, A1, 2047),
        SLTIU(A0, A1, -1),
        XORI(A0, A1, 0x555),
        ORI(A0, A1, -0x556),
        ANDI(A0, A1, 1),
        SLLI(A0, A1, 0),
        SRLI(A0, A1, 31),
        SRAI(A0, A1, 17),
        LUI(A0, i32::MIN),
        LUI(A0, 0x7FFF_F000),
        AUIPC(RA, -4096),
        JAL(RA, 0x0F_FFFE),
        JAL(Zero, -0x10_0000),
        JALR(Zero, RA, 0),
        JALR(RA, T1, -4),
        BEQ(A0, A1, 4094),
        BNE(A0, A1, -4096),
        BLT(A0, A1, 2),
        BGE(A0, A1, -2),
        BLTU(Zero, Zero, 0x800),
        BGEU(T6, T6, -0x800),
        LB(A0, SP, -1),
        LH(A0, SP, 2),
        LW(Zero, SP, 2047),
        LBU(A0, SP, 0),
        LHU(A0, SP, -2048),
        SB(SP, A0, -1),
        SH(SP, A0, 0x7FF),
        SW(Zero, Zero, -0x800),
        ECALL,
        EBREAK,
        FENCE,
        ADDI(Zero, Zero, 0),
        ADDI(Zero, Zero, 1),
        ADD(Zero, A1, A2),
        XORI(Zero, T0, -1),
        SRAI(Zero, Zero, 31),
        LUI(Zero, 0x1000),
        AUIPC(Zero, 0),
    ] {
        round_trip(op);
    }
}

#[test]
fn known_words_are_encoded() {
    assert_eq!(ADDI(A0, Zero, 42).encode(), 0x02A0_0513);
    assert_eq!(Operation::JALR(Register::Zero, Register::RA, 0).encode(), 0x0000_8067);
    assert_eq!(Operation::SB(Register::T1, Register::T1, 0).encode(), 0x0063_0023);
    assert_eq!(Operation::BEQ(Register::Zero, Register::Zero, -4).encode(), 0xFE00_0EE3);
    assert_eq!(Operation::JAL(Register::Zero, -4).encode(), 0xFFDF_F06F);
    assert_eq!(Operation::LUI(Register::A0, -4096).encode(), 0xFFFF_F537);
    assert_eq!(Operation::SRAI(Register::A0, Register::A1, 31).encode(), 0x41F5_D513);
}

#[test]
fn nop_and_hint_are_written_as_addi_and_decode_as_it() {
    assert_eq!(NOP.encode(), 0x0000_0013);
    assert_eq!(HINT.encode(), 0x0010_0013);
    assert_eq!(Operation::from_bytes(&NOP.encode().to_le_bytes()), Ok(ADDI(Zero, Zero, 0)));
    assert_eq!(Operation::from_bytes(&HINT.encode().to_le_bytes()), Ok(ADDI(Zero, Zero, 1)));
}

#[test]
fn the_second_name_of_s0_does_not_come_back() {
    let op = Operation::ADD(Register::FP, Register::FP, Register::FP);
    assert_eq!(
        Operation::from_bytes(&op.encode().to_le_bytes()),
        Ok(Operation::ADD(Register::S0, Register::S0, Register::S0))
    );
}

use remu::error::ExecutionError;
use remu::machine::Machine;
use remu::register::Register;

fn machine_with(top: u32, words: &[u32]) -> Machine {
    let mut machine =
        Machine::new(0, Some(0), top, vec![0; top as usize].into_boxed_slice(), false, Vec::new());
    for (i, word) in words.iter().enumerate() {
        machine.store_word(*word, (i * 4) as u32).unwrap();
    }
    machine
}

fn r_type(funct7: u32, rs2: Register, rs1: Register, funct3: u32, rd: Register) -> u32 {
    (funct7 << 25)
        | ((rs2.to_num() as u32) << 20)
        | ((rs1.to_num() as u32) << 15)
        | (funct3 << 12)
        | ((rd.to_num() as u32) << 7)
        | 0b0110011
}

/// Runs one register-register instruction on `a` and `b` and returns the result.
fn compute(funct7: u32, funct3: u32, a: u32, b: u32) -> u32 {
    let mut machine =
        machine_with(64, &[r_type(funct7, Register::A2, Register::A1, funct3, Register::A0)]);
    machine.set_reg(Register::A1, a);
    machine.set_reg(Register::A2, b);
    machine.step().unwrap();
    assert_eq!(machine.pc(), 4);
    machine.get_reg(Register::A0)
}

#[test]
fn test_write_u32() {
    let mut machine =
        Machine::new(0, Some(0), 8, vec![0; 4].into_boxed_slice(), false, Vec::new());
    machine.store_word(0xBEE5AA11, 0).unwrap();
    for (&mem_value, test_value) in machine.memory().iter().zip([0x11, 0xAA, 0xE5, 0xBE]) {
        assert_eq!(mem_value, test_value);
    }
}

#[test]
fn test_program_completion() {
    let mut machine =
        Machine::new(0, Some(0), 32, vec![0; 32].into_boxed_slice(), false, Vec::new());
    let store_a0_42 = 0b0010011 | (Register::A0.to_num() << 7) | (42 << 20);
    let _ = machine.store_word(store_a0_42 as u32, 0);
    // JALR to RA
    let ret = 0b1100111 | (Register::RA.to_num() << 15);
    let _ = machine.store_word(ret as u32, 4);

    machine.step().unwrap();
    assert_eq!(machine.step(), Err(ExecutionError::FinishedExecution(42)))
}

#[test]
fn addi_then_ret_finishes_with_42() {
    let mut machine = machine_with(64, &[0x02A0_0513, 0x0000_8067]);
    assert_eq!(machine.step(), Ok(()));
    assert_eq!(machine.get_reg(Register::A0), 42);
    assert_eq!(machine.pc(), 4);
    assert_eq!(machine.cycle(), 1);
    assert_eq!(machine.step(), Err(ExecutionError::FinishedExecution(42)));
    assert_eq!(machine.pc(), 4);
    assert_eq!(machine.cycle(), 1);
}

#[test]
fn store_byte_then_load_byte_round_trip() {
    // ADDI T1, Zero, 0x7B ; SB T1, 0(T1) ; LBU A0, 0(T1)
    let mut machine = machine_with(256, &[0x07B0_0313, 0x0063_0023, 0x0003_4503]);
    machine.step().unwrap();
    machine.step().unwrap();
    assert_eq!(machine.memory()[0x7B], 0x7B);
    machine.step().unwrap();
    assert_eq!(machine.get_reg(Register::A0), 0x7B);
    assert_eq!(machine.read_byte(0x7B), Ok(0x7B));
}

#[test]
fn breakpoint_hit_and_resume() {
    let mut machine = machine_with(64, &[0x0000_0013]);
    machine.breakpoints().push(0);
    assert_eq!(machine.step(), Err(ExecutionError::Breakpoint(0)));
    assert_eq!(machine.pc(), 0);
    assert_eq!(machine.cycle(), 0);
    machine.set_pass_breakpoint(true);
    assert_eq!(machine.step(), Ok(()));
    assert_eq!(machine.pc(), 4);
    assert!(!machine.pass_breakpoint());
}

#[test]
fn unsigned_vs_signed_compare() {
    assert_eq!(compute(0, 0b010, 0xFFFF_FFFF, 1), 1);
    assert_eq!(compute(0, 0b011, 0xFFFF_FFFF, 1), 0);
}

#[test]
fn signed_division_edges() {
    assert_eq!(compute(1, 0b100, 0x8000_0000, 0xFFFF_FFFF), 0x8000_0000);
    assert_eq!(compute(1, 0b110, 0x8000_0000, 0xFFFF_FFFF), 0);
    assert_eq!(compute(1, 0b100, 0x8000_0000, 0), 0xFFFF_FFFF);
    assert_eq!(compute(1, 0b110, 0x8000_0000, 0), 0x8000_0000);
    assert_eq!(compute(1, 0b100, (-7i32) as u32, 2), (-3i32) as u32);
    assert_eq!(compute(1, 0b110, (-7i32) as u32, 2), (-1i32) as u32);
    assert_eq!(compute(1, 0b100, 7, (-2i32) as u32), (-3i32) as u32);
    assert_eq!(compute(1, 0b110, 7, (-2i32) as u32), 1);
}

#[test]
fn unsigned_division_edges() {
    assert_eq!(compute(1, 0b101, 7, 0), 0xFFFF_FFFF);
    assert_eq!(compute(1, 0b111, 7, 0), 7);
    assert_eq!(compute(1, 0b101, 0xFFFF_FFFF, 2), 0x7FFF_FFFF);
    assert_eq!(compute(1, 0b111, 0xFFFF_FFFF, 2), 1);
}

#[test]
fn multiplication_words() {
    // -2 * 3 = -6
    assert_eq!(compute(1, 0b000, 0xFFFF_FFFE, 3), 0xFFFF_FFFA);
    assert_eq!(compute(1, 0b001, 0xFFFF_FFFE, 3), 0xFFFF_FFFF);
    // signed -2 times unsigned 0xFFFFFFFF
    assert_eq!(compute(1, 0b010, 0xFFFF_FFFE, 0xFFFF_FFFF), 0xFFFF_FFFE);
    // unsigned times unsigned
    assert_eq!(compute(1, 0b011, 0xFFFF_FFFF, 0xFFFF_FFFF), 0xFFFF_FFFE);
    assert_eq!(compute(1, 0b001, 0x8000_0000, 0x8000_0000), 0x4000_0000);
}

#[test]
fn arithmetic_wraps_and_shifts_use_five_bits() {
    assert_eq!(compute(0, 0b000, 0xFFFF_FFFF, 2), 1);
    assert_eq!(compute(0x20, 0b000, 0, 1), 0xFFFF_FFFF);
    assert_eq!(compute(0, 0b001, 1, 33), 2);
    assert_eq!(compute(0, 0b101, 0x8000_0000, 35), 0x1000_0000);
    assert_eq!(compute(0x20, 0b101, 0x8000_0000, 35), 0xF000_0000);
    assert_eq!(compute(0, 0b100, 0b1100, 0b1010), 0b0110);
    assert_eq!(compute(0, 0b110, 0b1100, 0b1010), 0b1110);
    assert_eq!(compute(0, 0b111, 0b1100, 0b1010), 0b1000);
}

#[test]
fn writes_to_zero_are_dropped() {
    let mut machine = machine_with(64, &[]);
    machine.set_reg(Register::Zero, 7);
    assert_eq!(machine.get_reg(Register::Zero), 0);
    machine.set_reg(Register::T2, 7);
    assert_eq!(machine.get_reg(Register::T2), 7);
    machine.set_reg(Register::FP, 9);
    assert_eq!(machine.get_reg(Register::S0), 9);
}

#[test]
fn stack_pointer_defaults_to_aligned_top() {
    let machine = Machine::new(8, None, 0x1234, vec![0; 0x1234].into_boxed_slice(), false, Vec::new());
    assert_eq!(machine.get_reg(Register::SP), 0x1230);
    assert_eq!(machine.pc(), 8);
}

#[test]
fn stored_values_read_back_little_endian() {
    let mut machine = machine_with(64, &[]);
    machine.store_word(0xDEAD_BEEF, 8).unwrap();
    assert_eq!(machine.read_word(8), Ok(0xDEAD_BEEF));
    assert_eq!(machine.read_byte(8), Ok(0xEFu8 as i8));
    assert_eq!(machine.read_byte(9), Ok(0xBEu8 as i8));
    assert_eq!(machine.read_byte(10), Ok(0xADu8 as i8));
    assert_eq!(machine.read_byte(11), Ok(0xDEu8 as i8));
    assert_eq!(machine.read_halfword(10), Ok(0xDEADu16 as i16));
    machine.store_halfword(0x1234, 9).unwrap();
    assert_eq!(machine.read_word(8), Ok(0xDE12_34EF));
    machine.store_byte(0x55, 11).unwrap();
    assert_eq!(machine.read_word(8), Ok(0x5512_34EF));
    for addr in 8..12u32 {
        let word = machine.read_word(addr & !3).unwrap();
        let byte = machine.read_byte(addr).unwrap();
        assert_eq!(byte as u8 as u32, (word >> ((addr & 3) * 8)) & 0xFF);
    }
}

#[test]
fn accesses_beyond_the_top_fault() {
    let mut machine = machine_with(16, &[]);
    assert_eq!(machine.read_byte(15), Ok(0));
    assert_eq!(machine.read_byte(16), Err(ExecutionError::LoadAccessFault(16)));
    assert_eq!(machine.read_halfword(15), Err(ExecutionError::LoadAccessFault(15)));
    assert_eq!(machine.read_word(12), Ok(0));
    assert_eq!(machine.read_word(13), Err(ExecutionError::LoadAccessFault(13)));
    assert_eq!(machine.store_word(1, 13), Err(ExecutionError::LoadAccessFault(13)));
    assert_eq!(machine.store_byte(1, 16), Err(ExecutionError::LoadAccessFault(16)));
    assert_eq!(machine.store_halfword(1, 15), Err(ExecutionError::LoadAccessFault(15)));
    assert_eq!(machine.read_word(0xF000_0000), Err(ExecutionError::LoadAccessFault(0xF000_0000)));
}

#[test]
fn instruction_fetch_faults() {
    let mut machine = machine_with(16, &[]);
    machine.set_pc(2);
    assert_eq!(machine.step(), Err(ExecutionError::InstructionAddressMisaligned(2)));
    machine.set_pc(16);
    assert_eq!(machine.step(), Err(ExecutionError::InstructionAccessFault(16)));
    assert_eq!(machine.pc(), 16);
    assert!(machine.read_instruction_bytes(12).is_ok());
}

#[test]
fn undecodable_word_is_a_parse_error() {
    let mut machine = machine_with(16, &[0xFFFF_FFFF]);
    assert_eq!(
        machine.step(),
        Err(ExecutionError::ParseError(remu::decode::ParseError::InvalidOpcode(0x7F)))
    );
    assert_eq!(machine.pc(), 0);
}

#[test]
fn branches_and_jumps_set_the_program_counter() {
    // BNE A0, A1, 8 ; NOP ; JAL RA, -8 ; EBREAK
    let mut machine = machine_with(64, &[0x00B5_1463, 0x0000_0013, 0xFF9F_F0EF, 0x0010_0073]);
    machine.set_reg(Register::A0, 1);
    machine.step().unwrap();
    assert_eq!(machine.pc(), 8);
    machine.step().unwrap();
    assert_eq!(machine.pc(), 0);
    assert_eq!(machine.get_reg(Register::RA), 12);
    machine.set_reg(Register::A1, 1);
    machine.step().unwrap();
    assert_eq!(machine.pc(), 4);
    machine.set_pc(12);
    assert_eq!(machine.step(), Err(ExecutionError::Breakpoint(12)));
}

#[test]
fn jalr_reads_its_source_before_it_links() {
    // JALR RA, RA, 5
    let mut machine = machine_with(64, &[0x0050_80E7]);
    machine.set_reg(Register::RA, 0x20);
    machine.step().unwrap();
    assert_eq!(machine.pc(), 0x24);
    assert_eq!(machine.get_reg(Register::RA), 4);
}

#[test]
fn loads_extend_by_sign_or_by_zero() {
    // LB A0, 32(Zero) ; LBU A0, 32(Zero) ; LH A0, 32(Zero) ; LHU A0, 32(Zero) ; LW A0, 32(Zero)
    let mut machine =
        machine_with(64, &[0x0200_0503, 0x0200_4503, 0x0200_1503, 0x0200_5503, 0x0200_2503]);
    machine.store_word(0xFFFF_8180, 32).unwrap();
    machine.step().unwrap();
    assert_eq!(machine.get_reg(Register::A0), 0xFFFF_FF80);
    machine.step().unwrap();
    assert_eq!(machine.get_reg(Register::A0), 0x80);
    machine.step().unwrap();
    assert_eq!(machine.get_reg(Register::A0), 0xFFFF_8180);
    machine.step().unwrap();
    assert_eq!(machine.get_reg(Register::A0), 0x8180);
    machine.step().unwrap();
    assert_eq!(machine.get_reg(Register::A0), 0xFFFF_8180);
}

#[test]
fn io_and_device_errors_compare_by_kind() {
    assert_eq!(ExecutionError::IOError("a".to_string()), ExecutionError::IOError("b".to_string()));
    assert_eq!(
        ExecutionError::ReadlineError("a".to_string()),
        ExecutionError::ReadlineError("b".to_string())
    );
    assert_ne!(ExecutionError::LoadAccessFault(1), ExecutionError::LoadAccessFault(2));
    assert_ne!(ExecutionError::IOError("a".to_string()), ExecutionError::HaltedByUser);
}

#[test]
fn load_store_byte_asm() {
    for (data, s) in [(0u8, 16u32), (1, 17), (0x7B, 0x7B), (0x7F, 100), (0xFF, 2047), (0x80, 2046)]
    {
        let mut machine = Machine::new(
            0,
            Some(0),
            s + 4,
            vec![0; s as usize + 4].into_boxed_slice(),
            false,
            Vec::new(),
        );
        let load_data: u32 =
            0b0010011 | ((Register::T1.to_num() as u32) << 7) | ((data as u32) << 20);
        let _ = machine.store_word(load_data, 0);
        // Store the data byte in s
        let sb: u32 = 0b0100011
            | ((Register::T1.to_num() as u32) << 20)
            | ((s & 0x1F) << 7)
            | ((s & 0xFE0) << 20);
        let _ = machine.store_word(sb, 4);
        let lb: u32 = 0b0000011 | ((Register::A0.to_num() as u32) << 7) | (s << 20);
        let _ = machine.store_word(lb, 8);
        // JALR to RA
        let ret = 0b1100111 | (Register::RA.to_num() << 15);
        let _ = machine.store_word(ret as u32, 12);

        machine.step().unwrap();
        machine.step().unwrap();
        machine.step().unwrap();
        assert_eq!(machine.step(), Err(ExecutionError::FinishedExecution(data)));
        assert_eq!(machine.memory()[s as usize], data);
    }
}

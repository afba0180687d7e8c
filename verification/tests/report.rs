use remu::machine::Machine;
use remu::register::Register;

fn machine_with(top: u32, words: &[u32]) -> Machine {
    let mut machine =
        Machine::new(0, Some(0), top, vec![0; top as usize].into_boxed_slice(), false, Vec::new());
    for (i, word) in words.iter().enumerate() {
        machine.store_word(*word, (i * 4) as u32).unwrap();
    }
    machine
}

#[test]
fn the_dump_has_a_line_for_the_counter_and_for_each_register() {
    let mut machine = machine_with(64, &[]);
    machine.set_pc(0x40);
    machine.set_reg(Register::RA, 1);
    machine.set_reg(Register::T6, 0xDEAD_BEEF);
    let dump = machine.dump_state_txt();
    let lines: Vec<&str> = dump.lines().collect();
    assert_eq!(lines.len(), 32);
    assert!(dump.ends_with('\n'));
    assert_eq!(lines[0], "PC:0x00000040");
    assert_eq!(lines[1], "RA:0x00000001");
    assert_eq!(lines[2], "SP:0x00000000");
    assert_eq!(lines[8], "S0:0x00000000");
    assert_eq!(lines[10], "A0:0x00000000");
    assert_eq!(lines[31], "T6:0xdeadbeef");
    for (i, line) in lines.iter().enumerate().skip(1) {
        let name = format!("{:?}", Register::from_num(i as u32).unwrap());
        assert_eq!(*line, format!("{}:{:#010x}", name, machine.get_reg(Register::from_num(i as u32).unwrap())));
    }
}

#[test]
fn the_display_shows_registers_code_and_stack() {
    // ADDI A0, Zero, 42 ; JALR Zero, RA, 0
    let mut machine = machine_with(64, &[0x02A0_0513, 0x0000_8067]);
    machine.set_reg(Register::SP, 0x30);
    machine.set_reg(Register::RA, 7);
    machine.store_word(0xCAFE_F00D, 0x34).unwrap();
    let display = machine.display_info("\n");
    let lines: Vec<&str> = display.split('\n').collect();
    assert_eq!(lines.len(), 32);
    assert_eq!(lines[0], "PC:\t  0x00000000");
    // rows before the program counter would show addresses below zero
    assert_eq!(lines[1], "RA:\t           7\t0x00000007");
    assert_eq!(lines[2], "SP:\t          48\t0x00000030");
    assert_eq!(lines[9], "S1:\t           0\t0x00000000\t PC ->  0x00000000: ADDI  A0, ZERO, 0x2a");
    assert_eq!(lines[10], "A0:\t           0\t0x00000000\t\t0x00000004: JALR  ZERO, RA, 0x0");
    assert_eq!(
        lines[11],
        "A1:\t           0\t0x00000000\t\t0x00000008: Invalid opcode: 0x0"
    );
    assert_eq!(lines[17], "A7:\t           0\t0x00000000");
    assert_eq!(lines[18], "S2:\t           0\t0x00000000\t\t0x00000030: 0x00000000");
    assert_eq!(lines[19], "S3:\t           0\t0x00000000\t\t0x00000034: 0xcafef00d");
    assert_eq!(
        lines[22],
        "S6:\t           0\t0x00000000\t\t0x00000040: Exception while loading value at address 0x40"
    );
    assert_eq!(lines[31].split('\t').next(), Some("T6:"));
}

#[test]
fn a_terminal_gets_carriage_returns() {
    let machine = machine_with(16, &[]);
    let display = machine.display_info("\r\n");
    assert!(display.starts_with("\rPC:\t  0x00000000\r\nRA:\t"));
    assert_eq!(display.matches("\r\n").count(), 31);
    let plain = machine.display_info("\n");
    assert!(plain.starts_with("PC:\t"));
}

#[test]
fn code_beyond_the_memory_is_shown_as_a_fault() {
    let mut machine = machine_with(16, &[]);
    machine.set_pc(0x20);
    let display = machine.display_info("\n");
    let lines: Vec<&str> = display.split('\n').collect();
    assert_eq!(
        lines[9],
        "S1:\t           0\t0x00000000\t PC ->  0x00000020: Exception while loading instruction at address 0x20"
    );
    assert_eq!(lines[1], "RA:\t           0\t0x00000000\t\t0x00000000: Invalid opcode: 0x0");
}

#[test]
fn a_stack_that_reaches_the_device_space_leaves_the_other_rows_as_they_are() {
    let mut machine = machine_with(64, &[0x02A0_0513]);
    machine.set_reg(Register::SP, 0xEFFF_FFF8);
    machine.set_reg(Register::T6, 0xDEAD_BEEF);
    let display = machine.display_info("\n");
    let lines: Vec<&str> = display.split('\n').collect();
    assert_eq!(lines.len(), 32);
    assert_eq!(lines[0], "PC:\t  0x00000000");
    assert_eq!(lines[2], "SP:\t  4026531832\t0xeffffff8");
    assert_eq!(lines[9], "S1:\t           0\t0x00000000\t PC ->  0x00000000: ADDI  A0, ZERO, 0x2a");
    assert_eq!(lines[17], "A7:\t           0\t0x00000000");
    // the two rows below the device space show RAM
    assert_eq!(
        lines[18],
        "S2:\t           0\t0x00000000\t\t0xeffffff8: Exception while loading value at address 0xeffffff8"
    );
    assert_eq!(
        lines[19],
        "S3:\t           0\t0x00000000\t\t0xeffffffc: Exception while loading value at address 0xeffffffc"
    );
    // the rows in the device space show their address, then what no device answers
    for row in 20..32usize {
        let address = 0xEFFF_FFF8u32 + (row as u32 - 18) * 4;
        let value = machine.get_reg(Register::from_num(row as u32).unwrap());
        let name = format!("{:?}", Register::from_num(row as u32).unwrap());
        let start = format!("{}:\t{:>12}\t{:#010x}\t\t{:#010x}: ", name, value, value, address);
        assert!(lines[row].starts_with(&start), "{:?}", lines[row]);
    }
    assert!(lines[31].starts_with("T6:\t  3735928559\t0xdeadbeef\t\t0xf000002c: "));
}

#[test]
fn stack_addresses_stop_at_the_last_address() {
    let mut machine = machine_with(16, &[]);
    machine.set_reg(Register::SP, 0xFFFF_FFF8);
    let display = machine.display_info("\n");
    let lines: Vec<&str> = display.split('\n').collect();
    assert!(lines[18].starts_with("S2:\t           0\t0x00000000\t\t0xfffffff8: "));
    assert!(lines[19].starts_with("S3:\t           0\t0x00000000\t\t0xfffffffc: "));
    assert!(lines[20].starts_with("S4:\t           0\t0x00000000\t\t0xffffffff: "));
    assert!(lines[31].starts_with("T6:\t           0\t0x00000000\t\t0xffffffff: "));
}

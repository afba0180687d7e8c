use remu::error::ExecutionError;
use remu::memory::Memory;

fn memory(len: usize, top: u32) -> Memory {
    Memory::new(vec![0; len].into_boxed_slice(), top)
}

#[test]
fn the_top_bounds_every_access() {
    let mut ram = memory(32, 16);
    assert_eq!(ram.memory_top(), 16);
    assert_eq!(ram.store_word(0x0403_0201, 12), Ok(()));
    assert_eq!(ram.read_word(12), Ok(0x0403_0201));
    assert_eq!(ram.read_halfword(14), Ok(0x0403));
    assert_eq!(ram.read_byte(15), Ok(4));
    assert_eq!(ram.read_byte(16), Err(ExecutionError::LoadAccessFault(16)));
    assert_eq!(ram.read_halfword(15), Err(ExecutionError::LoadAccessFault(15)));
    assert_eq!(ram.read_word(13), Err(ExecutionError::LoadAccessFault(13)));
    assert_eq!(ram.store_byte(1, 16), Err(ExecutionError::LoadAccessFault(16)));
    assert_eq!(ram.store_halfword(1, 15), Err(ExecutionError::LoadAccessFault(15)));
    assert_eq!(ram.store_word(1, 0xFFFF_FFFE), Err(ExecutionError::LoadAccessFault(0xFFFF_FFFE)));
    assert!(ram.read_instruction_bytes(12).is_ok());
    assert_eq!(
        ram.read_instruction_bytes(16).err(),
        Some(ExecutionError::InstructionAccessFault(16))
    );
    assert_eq!(
        ram.read_instruction_bytes(13).err(),
        Some(ExecutionError::InstructionAddressMisaligned(13))
    );
}

#[test]
fn a_top_of_zero_leaves_only_the_array_as_a_bound() {
    let mut ram = memory(8, 0);
    assert_eq!(ram.store_halfword(0xBEEF, 6), Ok(()));
    assert_eq!(ram.read_halfword(6), Ok(0xBEEFu16 as i16));
    assert_eq!(ram.read_byte(7), Ok(0xBEu8 as i8));
    assert_eq!(ram.read_byte(8), Err(ExecutionError::LoadAccessFault(8)));
    assert_eq!(ram.read_word(5), Err(ExecutionError::LoadAccessFault(5)));
    assert_eq!(ram.read_instruction_bytes(4).map(|b| b.to_vec()), Ok(vec![0, 0, 0xEF, 0xBE]));
    assert_eq!(
        ram.read_instruction_bytes(8).err(),
        Some(ExecutionError::InstructionAccessFault(8))
    );
    // an access that would wrap around the address space needs the bytes at its start
    assert_eq!(ram.read_word(0xFFFF_FFFE), Err(ExecutionError::LoadAccessFault(0xFFFF_FFFE)));
}

#[test]
fn an_array_shorter_than_the_top_bounds_too() {
    let mut ram = memory(4, 8);
    assert_eq!(ram.store_word(0xBEE5_AA11, 0), Ok(()));
    assert_eq!(ram.bytes(), [0x11, 0xAA, 0xE5, 0xBE]);
    assert_eq!(ram.read_byte(4), Err(ExecutionError::LoadAccessFault(4)));
    assert_eq!(ram.store_word(0, 4), Err(ExecutionError::LoadAccessFault(4)));
    assert_eq!(
        ram.read_instruction_bytes(4).err(),
        Some(ExecutionError::InstructionAccessFault(4))
    );
}

#[test]
fn blocks_are_copied_and_filled() {
    let mut ram = memory(8, 8);
    assert!(ram.spans(4, 4));
    assert!(!ram.spans(5, 4));
    assert!(ram.spans(8, 0));
    assert!(!ram.spans(0xFFFF_FFFF, 0xFFFF_FFFF));
    ram.fill(2, 4, &[1, 2]);
    assert_eq!(ram.bytes(), [0, 0, 1, 2, 0, 0, 0, 0]);
    ram.fill(0, 2, &[7, 8, 9]);
    assert_eq!(ram.bytes(), [7, 8, 1, 2, 0, 0, 0, 0]);
    assert_eq!(ram.read_bytes(1, 3), vec![8, 1, 2]);
    assert_eq!(ram.read_range(2, 4), vec![1, 2]);
    assert_eq!(ram.find_nul(0), Some(4));
    assert_eq!(ram.find_nul(5), Some(5));
    assert_eq!(ram.find_nul(8), None);
    ram.fill(4, 4, &[1, 1, 1, 1]);
    assert_eq!(ram.find_nul(0), None);
}

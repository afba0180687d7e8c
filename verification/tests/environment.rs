use remu::environment::{
    count_as_word, has_flag, Environment, FileDescriptor, FileDescriptorTable, HostReply,
    HostRequest, OpenFlags,
};
use remu::error::ExecutionError;
use remu::machine::Machine;
use remu::memory::Memory;
use remu::register::Register;

fn memory(bytes: Vec<u8>) -> Memory {
    let top = bytes.len() as u32;
    Memory::new(bytes.into_boxed_slice(), top)
}

fn call(
    env: &mut Environment,
    mem: &mut Memory,
    a7: u32,
    a0: u32,
    a1: u32,
    a2: u32,
    answer: impl Fn(&HostRequest) -> HostReply,
) -> (Option<HostRequest>, Result<i32, ExecutionError>) {
    let request = env.request(a7, a0, a1, a2, mem);
    let reply = request.as_ref().map(answer);
    (request, env.syscall(a7, a0, a1, a2, mem, reply))
}

#[test]
fn flags() {
    assert_eq!(OpenFlags::OCreat.bits(), 0o100);
    assert_eq!(OpenFlags::OTmpFile.bits(), 0o20000000);
    assert!(has_flag(0o101, OpenFlags::OCreat));
    assert!(!has_flag(0o001, OpenFlags::OCreat));
    assert!(!has_flag(0o777, OpenFlags::ORdOnly));
}

#[test]
fn numbers_start_at_three_and_are_recycled_oldest_first() {
    let mut table = FileDescriptorTable::new();
    assert_eq!(table.next_fd(), Some(3));
    assert_eq!(table.open(0), 3);
    assert_eq!(table.open(1), 4);
    assert_eq!(table.open(2), 5);
    assert_eq!(table.get_idx(4), 1);
    assert_eq!(table.get_idx(6), -1);
    assert_eq!(table.get_file(5), Some(FileDescriptor { fd: 5, flags: 2 }));
    assert_eq!(table.get_file(0), None);
    assert_eq!(table.close(4), 0);
    assert_eq!(table.close(4), -1);
    assert_eq!(table.close(3), 0);
    assert_eq!(table.close(1), -1);
    // the last file took the place of the one that was closed
    assert_eq!(table.get_idx(5), 0);
    assert_eq!(table.next_fd(), Some(4));
    assert_eq!(table.open(7), 4);
    assert_eq!(table.open(7), 3);
    assert_eq!(table.open(7), 6);
}

#[test]
fn open_reads_the_path_and_asks_the_host() {
    let mut env = Environment::new();
    let mut mem = memory(b"..a.txt\0....".to_vec());
    let (request, result) = call(&mut env, &mut mem, 56, 2, 0o100, 0, |_| HostReply::Opened);
    assert_eq!(
        request,
        Some(HostRequest::Open { path: b"a.txt".to_vec(), create: true, fd: 3 })
    );
    assert_eq!(result, Ok(3));
    let (request, result) = call(&mut env, &mut mem, 56, 2, 0, 0, |_| HostReply::Failed);
    assert_eq!(
        request,
        Some(HostRequest::Open { path: b"a.txt".to_vec(), create: false, fd: 4 })
    );
    assert_eq!(result, Ok(-1));
    // the number was not used up
    let (request, _) = call(&mut env, &mut mem, 56, 7, 0, 0, |_| HostReply::Opened);
    assert_eq!(request, Some(HostRequest::Open { path: vec![], create: false, fd: 4 }));
}

#[test]
fn a_path_without_an_end_is_an_io_error() {
    let mut env = Environment::new();
    let mut mem = memory(b"\0abc".to_vec());
    let (request, result) = call(&mut env, &mut mem, 56, 1, 0, 0, |_| HostReply::Opened);
    assert_eq!(request, None);
    assert_eq!(result, Err(ExecutionError::IOError(String::new())));
    let (request, result) = call(&mut env, &mut mem, 56, 100, 0, 0, |_| HostReply::Opened);
    assert_eq!(request, None);
    assert_eq!(result, Err(ExecutionError::IOError(String::new())));
}

#[test]
fn close_frees_the_number() {
    let mut env = Environment::new();
    let mut mem = memory(b"f\0".to_vec());
    call(&mut env, &mut mem, 56, 0, 0, 0, |_| HostReply::Opened);
    let (request, result) = call(&mut env, &mut mem, 57, 3, 0, 0, |_| HostReply::Done);
    assert_eq!(request, Some(HostRequest::Close { fd: 3 }));
    assert_eq!(result, Ok(0));
    let (request, result) = call(&mut env, &mut mem, 57, 3, 0, 0, |_| HostReply::Done);
    assert_eq!(request, None);
    assert_eq!(result, Ok(-1));
    let (request, _) = call(&mut env, &mut mem, 56, 0, 0, 0, |_| HostReply::Opened);
    assert_eq!(request, Some(HostRequest::Open { path: b"f".to_vec(), create: false, fd: 3 }));
}

#[test]
fn read_copies_into_the_whole_buffer() {
    let mut env = Environment::new();
    let mut mem = memory(vec![0xEE; 8]);
    let (request, result) =
        call(&mut env, &mut mem, 63, 0, 2, 4, |_| HostReply::Data(b"hi".to_vec()));
    assert_eq!(request, Some(HostRequest::ReadStdin { len: 4 }));
    assert_eq!(result, Ok(2));
    assert_eq!(mem.bytes(), [0xEE, 0xEE, b'h', b'i', 0, 0, 0xEE, 0xEE]);
    // more than was asked for is cut off
    let (_, result) =
        call(&mut env, &mut mem, 63, 0, 0, 2, |_| HostReply::Data(b"abcdef".to_vec()));
    assert_eq!(result, Ok(2));
    assert_eq!(mem.bytes()[..3], [b'a', b'b', b'h']);
    // a failed read returns -1 and clears the buffer
    let (_, result) = call(&mut env, &mut mem, 63, 0, 0, 2, |_| HostReply::Failed);
    assert_eq!(result, Ok(-1));
    assert_eq!(mem.bytes()[..3], [0, 0, b'h']);
}

#[test]
fn read_of_an_output_stream_or_an_unknown_file_fails() {
    let mut env = Environment::new();
    let mut mem = memory(vec![0xEE; 8]);
    for fd in [1, 2] {
        let (request, result) = call(&mut env, &mut mem, 63, fd, 0, 2, |_| HostReply::Done);
        assert_eq!(request, None);
        assert_eq!(result, Ok(-1));
    }
    assert_eq!(mem.bytes()[..3], [0, 0, 0xEE]);
    let (request, result) = call(&mut env, &mut mem, 63, 9, 4, 100, |_| HostReply::Done);
    assert_eq!(request, None);
    assert_eq!(result, Ok(-1));
    assert_eq!(mem.bytes()[4..], [0xEE; 4]);
}

#[test]
fn a_buffer_beyond_the_memory_is_a_fault() {
    let mut env = Environment::new();
    let mut mem = memory(vec![0; 8]);
    let (request, result) =
        call(&mut env, &mut mem, 63, 0, 6, 3, |_| HostReply::Data(b"abc".to_vec()));
    assert_eq!(request, Some(HostRequest::ReadStdin { len: 3 }));
    assert_eq!(result, Err(ExecutionError::LoadAccessFault(6)));
    assert_eq!(mem.bytes(), [0; 8]);
    let (request, result) = call(&mut env, &mut mem, 64, 1, 6, 3, |_| HostReply::Written(3));
    assert_eq!(request, None);
    assert_eq!(result, Err(ExecutionError::LoadAccessFault(6)));
    let (_, result) =
        call(&mut env, &mut mem, 64, 1, 0xFFFF_FFFF, 0xFFFF_FFFF, |_| HostReply::Written(3));
    assert_eq!(result, Err(ExecutionError::LoadAccessFault(0xFFFF_FFFF)));
    let (request, result) = call(&mut env, &mut mem, 64, 1, 8, 0, |_| HostReply::Written(0));
    assert_eq!(request, Some(HostRequest::WriteStdout { bytes: vec![] }));
    assert_eq!(result, Ok(0));
}

#[test]
fn write_hands_the_bytes_to_the_host() {
    let mut env = Environment::new();
    let mut mem = memory(b"hello\0".to_vec());
    let (request, result) = call(&mut env, &mut mem, 64, 1, 1, 3, |_| HostReply::Written(3));
    assert_eq!(request, Some(HostRequest::WriteStdout { bytes: b"ell".to_vec() }));
    assert_eq!(result, Ok(3));
    let (request, result) = call(&mut env, &mut mem, 64, 2, 0, 5, |_| HostReply::Written(2));
    assert_eq!(request, Some(HostRequest::WriteStderr { bytes: b"hello".to_vec() }));
    assert_eq!(result, Ok(2));
    let (request, result) = call(&mut env, &mut mem, 64, 0, 0, 5, |_| HostReply::Written(5));
    assert_eq!(request, None);
    assert_eq!(result, Ok(-1));
    let (request, result) = call(&mut env, &mut mem, 64, 3, 0, 5, |_| HostReply::Written(5));
    assert_eq!(request, None);
    assert_eq!(result, Ok(-1));
    call(&mut env, &mut mem, 56, 5, 0, 0, |_| HostReply::Opened);
    let (request, result) = call(&mut env, &mut mem, 64, 3, 0, 2, |_| HostReply::Failed);
    assert_eq!(request, Some(HostRequest::WriteFile { fd: 3, bytes: b"he".to_vec() }));
    assert_eq!(result, Ok(-1));
    let (request, result) =
        call(&mut env, &mut mem, 63, 3, 0, 2, |_| HostReply::Data(b"XY".to_vec()));
    assert_eq!(request, Some(HostRequest::ReadFile { fd: 3, len: 2 }));
    assert_eq!(result, Ok(2));
    assert_eq!(mem.bytes(), b"XYllo\0");
}

#[test]
fn sleep_time_exit_and_the_rest() {
    let mut env = Environment::new();
    let mut mem = memory(vec![0; 8]);
    let (request, result) = call(&mut env, &mut mem, 77, 250, 0, 0, |_| HostReply::Done);
    assert_eq!(request, Some(HostRequest::Sleep { millis: 250 }));
    assert_eq!(result, Ok(0));
    env.reset_timer();
    let (request, result) = call(&mut env, &mut mem, 78, 0, 0, 0, |_| HostReply::Done);
    assert_eq!(request, None);
    assert!(matches!(result, Ok(ms) if (0..10_000).contains(&ms)));
    let (request, result) = call(&mut env, &mut mem, 94, 0x1FF, 0, 0, |_| HostReply::Done);
    assert_eq!(request, Some(HostRequest::Exit { status: 0x1FF }));
    assert_eq!(result, Err(ExecutionError::FinishedExecution(0xFF)));
    let (request, result) = call(&mut env, &mut mem, 1, 0, 0, 0, |_| HostReply::Done);
    assert_eq!(request, None);
    assert_eq!(result, Err(ExecutionError::InvalidSyscall(1)));
}

#[test]
fn counts_wrap_into_a_signed_word() {
    assert_eq!(count_as_word(0), 0);
    assert_eq!(count_as_word(0x7FFF_FFFF), i32::MAX);
    assert_eq!(count_as_word(0x8000_0000), i32::MIN);
    assert_eq!(count_as_word(0xFFFF_FFFF), -1);
    assert_eq!(count_as_word(0x1_0000_0005), 5);
}

#[test]
fn ecall_puts_the_result_in_a0() {
    // ECALL ; ECALL
    let mut machine =
        Machine::new(0, Some(0), 64, vec![0; 64].into_boxed_slice(), false, Vec::new());
    machine.store_word(0x0000_0073, 0).unwrap();
    machine.store_word(0x0000_0073, 4).unwrap();
    machine.set_reg(Register::A7, 63);
    machine.set_reg(Register::A0, 0);
    machine.set_reg(Register::A1, 0x20);
    machine.set_reg(Register::A2, 4);
    assert_eq!(machine.host_request(), Some(HostRequest::ReadStdin { len: 4 }));
    assert_eq!(machine.step_with(Some(HostReply::Data(b"ok".to_vec()))), Ok(()));
    assert_eq!(machine.get_reg(Register::A0), 2);
    assert_eq!(machine.read_word(0x20), Ok(0x0000_6B6F));
    assert_eq!(machine.pc(), 4);
    assert_eq!(machine.cycle(), 1);
    // without the host the call fails
    machine.set_reg(Register::A0, 0);
    assert_eq!(machine.step(), Ok(()));
    assert_eq!(machine.get_reg(Register::A0), 0xFFFF_FFFF);
    assert_eq!(machine.read_word(0x20), Ok(0));
}

#[test]
fn a_faulting_ecall_leaves_the_program_counter() {
    let mut machine =
        Machine::new(0, Some(0), 64, vec![0; 64].into_boxed_slice(), false, Vec::new());
    machine.store_word(0x0000_0073, 0).unwrap();
    machine.set_reg(Register::A7, 1234);
    assert_eq!(machine.host_request(), None);
    assert_eq!(machine.step(), Err(ExecutionError::InvalidSyscall(1234)));
    assert_eq!(machine.pc(), 0);
    assert_eq!(machine.cycle(), 0);
    machine.set_reg(Register::A7, 94);
    machine.set_reg(Register::A0, 7);
    assert_eq!(machine.host_request(), Some(HostRequest::Exit { status: 7 }));
    assert_eq!(machine.step(), Err(ExecutionError::FinishedExecution(7)));
    // no request at a breakpoint
    machine.breakpoints().push(0);
    assert_eq!(machine.host_request(), None);
}

use remu::debugger::{DebugCommand, DisplayFormat, Location};
use remu::environment::{HostReply, HostRequest};
use remu::error::ExecutionError;
use remu::machine::Machine;
use remu::register::Register;
use remu::session::{exit_code, final_message, ram_size, Action, LineRead, Session};
use remu::statetransfer::{ControlCode, MachineState};

fn machine_with(words: &[u32]) -> Machine {
    let mut machine =
        Machine::new(0, Some(0), 64, vec![0; 64].into_boxed_slice(), false, Vec::new());
    for (i, word) in words.iter().enumerate() {
        machine.store_word(*word, (i * 4) as u32).unwrap();
    }
    machine
}

fn line(text: &str) -> LineRead {
    LineRead::Line(text.to_string())
}

/// Steps the machine as a host without a terminal would.
fn step(session: &mut Session, machine: &mut Machine) -> Result<(), ExecutionError> {
    let result = machine.step();
    session.stepped(machine, result)
}

#[test]
fn a_free_run_steps_without_a_prompt() {
    let mut machine = machine_with(&[0x02A0_0513, 0x0000_8067]);
    let mut session = Session::new(false);
    assert_eq!(session.advance(&mut machine), Action::Step(None));
    step(&mut session, &mut machine).unwrap();
    assert_eq!(session.advance(&mut machine), Action::Step(None));
    assert_eq!(step(&mut session, &mut machine), Err(ExecutionError::FinishedExecution(42)));
}

#[test]
fn single_step_prompts_before_each_instruction() {
    let mut machine = machine_with(&[0x0000_0013, 0x0000_0013, 0x0000_0013, 0x0000_0013]);
    let mut session = Session::new(true);
    assert_eq!(session.advance(&mut machine), Action::Prompt(vec![]));
    // an empty line repeats the last command, which at first is one step
    assert_eq!(session.command(&mut machine, line("")), Ok(Action::Step(None)));
    step(&mut session, &mut machine).unwrap();
    assert_eq!(machine.pc(), 4);
    assert_eq!(session.advance(&mut machine), Action::Prompt(vec![]));
    assert_eq!(session.command(&mut machine, line("step 2")), Ok(Action::Step(None)));
    step(&mut session, &mut machine).unwrap();
    assert_eq!(session.advance(&mut machine), Action::Step(None));
    step(&mut session, &mut machine).unwrap();
    assert_eq!(machine.pc(), 12);
    assert_eq!(session.advance(&mut machine), Action::Prompt(vec![]));
    assert!(session.prompting());
}

#[test]
fn commands_that_do_not_run_come_back_to_the_prompt() {
    let mut machine = machine_with(&[0x0000_0013]);
    let mut session = Session::new(true);
    assert_eq!(session.advance(&mut machine), Action::Prompt(vec![]));
    assert_eq!(session.command(&mut machine, line("peek sp")), Ok(Action::Restart));
    assert_eq!(session.advance(&mut machine), Action::Prompt(vec!["SP: 0x0".to_string()]));
    assert_eq!(session.command(&mut machine, line("bogus")), Ok(Action::Restart));
    assert_eq!(
        session.advance(&mut machine),
        Action::Prompt(vec!["Invalid command `bogus`".to_string()])
    );
    assert_eq!(session.advance(&mut machine), Action::Prompt(vec![]));
}

#[test]
fn watches_are_shown_at_every_prompt() {
    let mut machine = machine_with(&[0x02A0_0513, 0x0000_0013]);
    let mut session = Session::new(true);
    session.advance(&mut machine);
    assert_eq!(session.command(&mut machine, line("watch /u a0")), Ok(Action::Restart));
    assert_eq!(
        *session.watchlist(),
        vec![DebugCommand::PEEK(DisplayFormat::Unsigned, Location::Register(Register::A0))]
    );
    assert_eq!(session.advance(&mut machine), Action::Prompt(vec!["A0: 0".to_string()]));
    assert_eq!(session.command(&mut machine, line("step")), Ok(Action::Step(None)));
    step(&mut session, &mut machine).unwrap();
    assert_eq!(session.advance(&mut machine), Action::Prompt(vec!["A0: 42".to_string()]));
    assert_eq!(session.command(&mut machine, line("rmwatch a0")), Ok(Action::Restart));
    assert_eq!(session.advance(&mut machine), Action::Prompt(vec![]));
}

#[test]
fn a_breakpoint_brings_the_prompt_back_and_is_passed_next() {
    let mut machine = machine_with(&[0x0000_0013, 0x0000_0013, 0x0000_0013]);
    let mut session = Session::new(true);
    session.advance(&mut machine);
    assert_eq!(session.command(&mut machine, line("break 0x4")), Ok(Action::Restart));
    assert_eq!(
        session.advance(&mut machine),
        Action::Prompt(vec!["Added breakpoint 1 at 0x00000004".to_string()])
    );
    assert_eq!(session.command(&mut machine, line("continue")), Ok(Action::Step(None)));
    step(&mut session, &mut machine).unwrap();
    assert_eq!(session.advance(&mut machine), Action::Step(None));
    step(&mut session, &mut machine).unwrap();
    assert_eq!(machine.pc(), 4);
    assert!(machine.pass_breakpoint());
    assert_eq!(
        session.advance(&mut machine),
        Action::Prompt(vec!["Breakpoint hit at address 0x4".to_string()])
    );
    assert_eq!(session.command(&mut machine, line("")), Ok(Action::Step(None)));
    step(&mut session, &mut machine).unwrap();
    assert_eq!(machine.pc(), 8);
}

#[test]
fn the_end_of_input_halts() {
    let mut machine = machine_with(&[]);
    let mut session = Session::new(true);
    assert_eq!(session.command(&mut machine, LineRead::Eof), Err(ExecutionError::HaltedByUser));
    assert_eq!(
        session.command(&mut machine, LineRead::Interrupted),
        Err(ExecutionError::HaltedByUser)
    );
    assert_eq!(
        session.command(&mut machine, LineRead::Failed("broken pipe".to_string())),
        Err(ExecutionError::ReadlineError(String::new()))
    );
    assert_eq!(session.command(&mut machine, line("exit")), Err(ExecutionError::HaltedByUser));
}

#[test]
fn other_errors_end_the_run() {
    let mut machine = machine_with(&[0xFFFF_FFFF]);
    let mut session = Session::new(false);
    assert!(matches!(
        step(&mut session, &mut machine),
        Err(ExecutionError::ParseError(_))
    ));
    assert!(!session.prompting());
}

#[test]
fn control_codes_steer_a_stopped_machine() {
    let mut machine = machine_with(&[0x0000_0013, 0x0000_0013]);
    let mut session = Session::new(false);
    Session::control(&mut machine, &ControlCode::STOP);
    assert!(!machine.runs_free());
    assert_eq!(session.advance(&mut machine), Action::Restart);
    Session::control(&mut machine, &ControlCode::STEP);
    assert_eq!(session.advance(&mut machine), Action::Step(None));
    step(&mut session, &mut machine).unwrap();
    assert!(!machine.step_requested());
    assert_eq!(session.advance(&mut machine), Action::Restart);
    Session::control(&mut machine, &ControlCode::RUN);
    assert_eq!(session.advance(&mut machine), Action::Step(None));
    Session::control(&mut machine, &ControlCode::JMP { address: 0x20 });
    assert_eq!(machine.pc(), 0x20);
    Session::control(&mut machine, &ControlCode::POKEREG { register: Register::A0, value: 9 });
    assert_eq!(machine.get_reg(Register::A0), 9);
    Session::control(&mut machine, &ControlCode::POKEREG { register: Register::Zero, value: 9 });
    assert_eq!(machine.get_reg(Register::Zero), 0);
    Session::control(&mut machine, &ControlCode::POKE { address: 0x30, value: 0x1234 });
    assert_eq!(machine.read_word(0x30), Ok(0x34));
    Session::control(&mut machine, &ControlCode::POKE { address: 0x100, value: 1 });
    Session::control(&mut machine, &ControlCode::RESET);
    assert_eq!(machine.pc(), 0x20);
}

#[test]
fn the_control_channel_is_emptied_without_waiting() {
    let mut machine = machine_with(&[]);
    let (tx, rx) = crossbeam_channel::unbounded();
    assert_eq!(Session::poll(&mut machine, &rx), vec![]);
    tx.send(ControlCode::STOP).unwrap();
    tx.send(ControlCode::JMP { address: 8 }).unwrap();
    tx.send(ControlCode::JMP { address: 12 }).unwrap();
    assert_eq!(
        Session::poll(&mut machine, &rx),
        vec![ControlCode::STOP, ControlCode::JMP { address: 8 }, ControlCode::JMP { address: 12 }]
    );
    assert_eq!(machine.pc(), 12);
    assert!(!machine.runs_free());
    assert_eq!(Session::poll(&mut machine, &rx), vec![]);
    drop(tx);
    assert_eq!(Session::poll(&mut machine, &rx), vec![]);
    Session::control_all(
        &mut machine,
        &vec![ControlCode::RUN, ControlCode::STOP, ControlCode::JMP { address: 4 }],
    );
    assert_eq!(machine.pc(), 4);
    assert!(!machine.runs_free());
}

#[test]
fn a_system_call_is_asked_of_the_host_before_the_step() {
    // ECALL
    let mut machine = machine_with(&[0x0000_0073]);
    machine.store_word(0x0A21_6948, 0x20).unwrap();
    machine.set_reg(Register::A7, 64);
    machine.set_reg(Register::A0, 1);
    machine.set_reg(Register::A1, 0x20);
    machine.set_reg(Register::A2, 3);
    let mut session = Session::new(false);
    assert_eq!(
        session.advance(&mut machine),
        Action::Step(Some(HostRequest::WriteStdout { bytes: vec![0x48, 0x69, 0x21] }))
    );
    let result = machine.step_with(Some(HostReply::Written(3)));
    session.stepped(&mut machine, result).unwrap();
    assert_eq!(machine.get_reg(Register::A0), 3);
    assert_eq!(machine.pc(), 4);
}

#[test]
fn exit_codes() {
    assert_eq!(exit_code(&ExecutionError::FinishedExecution(42), false), 42);
    assert_eq!(exit_code(&ExecutionError::FinishedExecution(42), true), 0);
    assert_eq!(exit_code(&ExecutionError::HaltedByUser, false), 1);
    assert_eq!(exit_code(&ExecutionError::LoadAccessFault(0), true), 1);
    assert_eq!(final_message(&ExecutionError::FinishedExecution(42)), None);
    assert_eq!(
        final_message(&ExecutionError::HaltedByUser),
        Some("Execution halted by user".to_string())
    );
    assert_eq!(ram_size(0), 1 << 32);
    assert_eq!(ram_size(65536), 65536);
}

#[test]
fn the_empty_state() {
    let state = MachineState::empty();
    assert_eq!(state.pc, 0);
    assert_eq!(state.registers, [0; 31]);
    assert_eq!(state.cur_inst, "");
    assert!(state.memory_changes.is_empty());
    assert_eq!(state.cycle, 0);
}

#[test]
fn snapshots_list_the_next_instruction() {
    let mut machine = machine_with(&[0x02A0_0513, 0xFFFF_FFFF]);
    let state = machine.snapshot();
    assert_eq!(state.pc, 0);
    assert_eq!(state.cur_inst, "ADDI  A0, ZERO, 0x2a");
    assert_eq!(machine.current_instruction(), "ADDI  A0, ZERO, 0x2a");
    machine.step().unwrap();
    // a step publishes nothing
    assert_eq!(machine.current_instruction(), "ADDI  A0, ZERO, 0x2a");
    assert!(machine.changes().is_empty());
    let state = machine.snapshot();
    assert_eq!(state.pc, 4);
    assert_eq!(state.registers[9], 42);
    assert_eq!(state.cur_inst, "invalid");
    assert_eq!(state.cycle, 1);
}

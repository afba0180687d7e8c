use crossbeam_channel::Receiver;
use vstd::prelude::*;

use crate::bits::low8;
use crate::bus::ram_store;
use crate::command::{command_post, lines_of, Controls};
use crate::debugger::{command_of, DebugCommand};
use crate::environment::{request_view, HostRequest};
use crate::error::ExecutionError;
use crate::execute::{pending, with_register};
use crate::machine::{Machine, MachineView};
use crate::statetransfer::ControlCode;

verus! {

/// `crossbeam_channel::Receiver`: the receiving side of a channel. Nothing
/// is known of what waits in it.
#[verifier::external_type_specification]
#[verifier::external_body]
#[verifier::reject_recursive_types(T)]
pub struct ExReceiver<T>(Receiver<T>);

/// `Receiver::try_iter`: the messages that are ready to be received, in
/// their order; it never blocks. Nothing is known of which they are.
#[verifier::external_body]
fn waiting(commands: &Receiver<ControlCode>) -> (codes: Vec<ControlCode>) {
    commands.try_iter().collect()
}

/// What the run loop keeps between cycles: whether the prompt is due, how
/// many steps are still to be made before it comes back, the command that
/// an empty line repeats, the status lines that wait to be printed, and
/// the watches.
pub struct Session {
    prompting: bool,
    should_step: Option<usize>,
    last_cmd: DebugCommand,
    status: Vec<String>,
    watchlist: Vec<DebugCommand>,
}

/// A `Session` as plain values.
pub struct SessionView {
    pub prompting: bool,
    pub should_step: Option<usize>,
    pub last_cmd: DebugCommand,
    pub status: Seq<Seq<char>>,
    pub watchlist: Seq<DebugCommand>,
}

/// What the host read at the prompt.
#[derive(Clone, Debug, PartialEq, Eq)]
pub enum LineRead {
    Line(String),
    /// The user interrupted the prompt.
    Interrupted,
    /// The input has ended.
    Eof,
    /// Reading failed; the text says how.
    Failed(String),
}

/// What the host does next.
#[derive(Clone, Debug, PartialEq, Eq)]
pub enum Action {
    /// Print the lines, read a line at the prompt, and hand it to `command`.
    Prompt(Vec<String>),
    /// Carry out the request, if there is one, step the machine with the
    /// answer, and hand what the step returned to `stepped`.
    Step(Option<HostRequest>),
    /// Nothing is due: begin the next cycle.
    Restart,
}

/// Every watch is a `PEEK`.
pub open spec fn only_peeks(watchlist: Seq<DebugCommand>) -> bool {
    forall|i: int| 0 <= i < watchlist.len() ==> (#[trigger] watchlist[i]) is PEEK
}

/// The countdown of steps at the start of a cycle: with one step or none
/// left the prompt is due and the countdown ends; else one step less is
/// left.
pub open spec fn counted_down(s: SessionView) -> SessionView {
    match s.should_step {
        Some(count) => if count <= 1 {
            SessionView { prompting: true, should_step: None, ..s }
        } else {
            SessionView { should_step: Some((count - 1) as usize), ..s }
        },
        None => s,
    }
}

/// Whether the machine may step: it runs free, or one step was asked for.
pub open spec fn step_due(m: MachineView) -> bool {
    m.run_free || m.step_once
}

/// What a control code does to the machine. `POKE` writes the low byte of
/// the value to RAM, and does nothing where the address is not in RAM.
pub open spec fn controlled(m: MachineView, code: ControlCode) -> MachineView {
    match code {
        ControlCode::STOP => MachineView { run_free: false, ..m },
        ControlCode::RUN => MachineView { run_free: true, ..m },
        ControlCode::STEP => MachineView { step_once: true, ..m },
        ControlCode::POKEREG { register, value } => with_register(m, register, value),
        ControlCode::POKE { address, value } => ram_store(m, 1, value, address).0,
        ControlCode::JMP { address } => MachineView { pc: address, ..m },
        _ => m,
    }
}

/// What control codes do to the machine, carried out in their order.
pub open spec fn controlled_all(m: MachineView, codes: Seq<ControlCode>) -> MachineView
    decreases codes.len(),
{
    if codes.len() == 0 {
        m
    } else {
        controlled(controlled_all(m, codes.drop_last()), codes.last())
    }
}

impl View for Session {
    type V = SessionView;

    closed spec fn view(&self) -> SessionView {
        SessionView {
            prompting: self.prompting,
            should_step: self.should_step,
            last_cmd: self.last_cmd,
            status: lines_of(self.status@),
            watchlist: self.watchlist@,
        }
    }
}

impl Session {
    /// A session's invariant: every watch is a `PEEK`.
    pub open spec fn wf(&self) -> bool {
        only_peeks(self@.watchlist)
    }

    /// A session at its start; the prompt is due at once where
    /// `single_step` is set. An empty line steps once.
    pub fn new(single_step: bool) -> (s: Session)
        ensures
            s.wf(),
            s@ == (SessionView {
                prompting: single_step,
                should_step: None,
                last_cmd: DebugCommand::STEP(1),
                status: Seq::empty(),
                watchlist: Seq::empty(),
            }),
    {
        let s = Session {
            prompting: single_step,
            should_step: None,
            // Set the default command to step, by default
            last_cmd: DebugCommand::STEP(1),
            status: Vec::new(),
            watchlist: Vec::new(),
        };
        assert(lines_of(s.status@) =~= Seq::empty());
        s
    }

    /// Carries out a message of the control channel.
    pub fn control(machine: &mut Machine, code: &ControlCode)
        ensures
            final(machine)@ == controlled(old(machine)@, *code),
            final(machine).device_list() == old(machine).device_list(),
            final(machine).wf() == old(machine).wf(),
    {
        match code {
            ControlCode::STOP => {
                machine.set_runs_free(false);
            },
            ControlCode::RUN => {
                machine.set_runs_free(true);
            },
            ControlCode::STEP => {
                machine.set_step_requested(true);
            },
            ControlCode::POKEREG { register, value } => {
                machine.set_reg(*register, *value);
            },
            ControlCode::POKE { address, value } => {
                machine.poke_ram(low8(*value), *address);
            },
            ControlCode::JMP { address } => {
                machine.set_pc(*address);
            },
            _ => {},
        }
    }

    /// Carries out messages of the control channel in their order.
    pub fn control_all(machine: &mut Machine, codes: &Vec<ControlCode>)
        ensures
            final(machine)@ == controlled_all(old(machine)@, codes@),
            final(machine).device_list() == old(machine).device_list(),
            final(machine).wf() == old(machine).wf(),
    {
        let mut i: usize = 0;
        assert(codes@.take(0) =~= Seq::empty());
        while i < codes.len()
            invariant
                i <= codes@.len(),
                machine@ == controlled_all(old(machine)@, codes@.take(i as int)),
                machine.device_list() == old(machine).device_list(),
                machine.wf() == old(machine).wf(),
            decreases codes@.len() - i,
        {
            proof {
                assert(codes@.take(i + 1).drop_last() =~= codes@.take(i as int));
            }
            Session::control(machine, &codes[i]);
            i += 1;
        }
        assert(codes@.take(i as int) =~= codes@);
    }

    /// Takes the messages that wait in the control channel, without
    /// waiting for more, carries them out in their order, and returns them.
    pub fn poll(machine: &mut Machine, commands: &Receiver<ControlCode>) -> (codes: Vec<
        ControlCode,
    >)
        ensures
            final(machine)@ == controlled_all(old(machine)@, codes@),
            final(machine).device_list() == old(machine).device_list(),
            final(machine).wf() == old(machine).wf(),
    {
        let codes = waiting(commands);
        Session::control_all(machine, &codes);
        codes
    }

    /// The status lines of the watches, each carried out on the machine.
    fn watch(&self, machine: &mut Machine) -> (lines: Vec<String>)
        requires
            self.wf(),
            old(machine).wf(),
        ensures
            final(machine)@ == old(machine)@,
            final(machine).device_list() == old(machine).device_list(),
            final(machine).wf() == old(machine).wf(),
            lines@.len() == self@.watchlist.len(),
            forall|i: int|
                0 <= i < lines@.len() ==> command_post(
                    self@.watchlist[i],
                    old(machine)@,
                    Controls {
                        should_step: self@.should_step,
                        prompting: false,
                        run: false,
                        watchlist: Seq::empty(),
                    },
                    old(machine)@,
                    Controls {
                        should_step: self@.should_step,
                        prompting: false,
                        run: false,
                        watchlist: Seq::empty(),
                    },
                    seq![(#[trigger] lines@[i])@],
                ),
    {
        let mut lines: Vec<String> = Vec::new();
        let mut i: usize = 0;
        while i < self.watchlist.len()
            invariant
                i <= self.watchlist@.len(),
                self.wf(),
                self@.watchlist == self.watchlist@,
                self@.should_step == self.should_step,
                machine@ == old(machine)@,
                machine.device_list() == old(machine).device_list(),
                machine.wf(),
                old(machine).wf(),
                lines@.len() == i,
                forall|k: int|
                    0 <= k < i ==> command_post(
                        self@.watchlist[k],
                        old(machine)@,
                        Controls {
                            should_step: self@.should_step,
                            prompting: false,
                            run: false,
                            watchlist: Seq::empty(),
                        },
                        old(machine)@,
                        Controls {
                            should_step: self@.should_step,
                            prompting: false,
                            run: false,
                            watchlist: Seq::empty(),
                        },
                        seq![(#[trigger] lines@[k])@],
                    ),
            decreases self.watchlist@.len() - i,
        {
            let cmd = self.watchlist[i];
            let mut steps = self.should_step;
            let mut prompting = false;
            let mut run = false;
            let mut none: Vec<DebugCommand> = Vec::new();
            match cmd.execute(machine, &mut steps, &mut prompting, &mut run, &mut none) {
                Ok(mut status) => {
                    let ghost full = status@;
                    assert(lines_of(full).len() == 1);
                    let line = status.remove(0);
                    assert(lines_of(full) =~= seq![line@]);
                    lines.push(line);
                },
                Err(_) => {
                    assert(false);
                },
            }
            i += 1;
        }
        lines
    }

    /// Begins a cycle: counts the steps down and tells what is due. Where
    /// the prompt is due, the lines to print before it are the status lines
    /// that waited and those of the watches, and none waits any longer.
    pub fn advance(&mut self, machine: &mut Machine) -> (action: Action)
        requires
            old(self).wf(),
            old(machine).wf(),
        ensures
            final(self).wf(),
            final(machine).wf(),
            final(machine)@ == old(machine)@,
            final(machine).device_list() == old(machine).device_list(),
            final(self)@.prompting == counted_down(old(self)@).prompting,
            final(self)@.should_step == counted_down(old(self)@).should_step,
            final(self)@.last_cmd == old(self)@.last_cmd,
            final(self)@.watchlist == old(self)@.watchlist,
            match action {
                Action::Prompt(lines) => {
                    &&& final(self)@.prompting
                    &&& final(self)@.status == Seq::<Seq<char>>::empty()
                    &&& lines@.len() == old(self)@.status.len() + old(self)@.watchlist.len()
                    &&& lines_of(lines@).take(old(self)@.status.len() as int) == old(self)@.status
                    &&& forall|i: int|
                        0 <= i < old(self)@.watchlist.len() ==> command_post(
                            #[trigger] old(self)@.watchlist[i],
                            old(machine)@,
                            Controls {
                                should_step: final(self)@.should_step,
                                prompting: false,
                                run: false,
                                watchlist: Seq::empty(),
                            },
                            old(machine)@,
                            Controls {
                                should_step: final(self)@.should_step,
                                prompting: false,
                                run: false,
                                watchlist: Seq::empty(),
                            },
                            seq![lines_of(lines@)[old(self)@.status.len() + i]],
                        )
                },
                Action::Step(request) => {
                    &&& !final(self)@.prompting
                    &&& step_due(old(machine)@)
                    &&& request_view(request) == pending(old(machine)@)
                    &&& final(self)@.status == old(self)@.status
                },
                Action::Restart => {
                    &&& !final(self)@.prompting
                    &&& !step_due(old(machine)@)
                    &&& final(self)@.status == old(self)@.status
                },
            },
    {
        // Check if we stepping for N times, and if we are at the end then pull the debugger
        // back up
        // Otherwise decrement the step counter
        if let Some(count) = self.should_step {
            if count <= 1 {
                self.prompting = true;
                self.should_step = None;
            } else {
                self.should_step = Some(count - 1);
            }
        }
        if self.prompting {
            // handle all watchlist lines
            let mut watched = self.watch(machine);
            let ghost waiting = self.status@;
            let ghost added = watched@;
            self.status.append(&mut watched);
            // print status lines
            let mut lines: Vec<String> = Vec::new();
            lines.append(&mut self.status);
            assert(lines@ =~= waiting + added);
            assert(lines_of(lines@).take(waiting.len() as int) =~= lines_of(waiting));
            assert(lines_of(self.status@) =~= Seq::empty());
            Action::Prompt(lines)
        } else {
            Session::ready(machine)
        }
    }

    /// Whether the machine steps now, and with what request to the host.
    fn ready(machine: &Machine) -> (action: Action)
        requires
            machine.wf(),
        ensures
            match action {
                Action::Step(request) => step_due(machine@) && request_view(request) == pending(
                    machine@,
                ),
                Action::Restart => !step_due(machine@),
                Action::Prompt(_) => false,
            },
    {
        if machine.runs_free() || machine.step_requested() {
            Action::Step(machine.host_request())
        } else {
            Action::Restart
        }
    }

    /// Takes what was read at the prompt. An interrupt or the end of the
    /// input halts; an empty line repeats the last command that let the
    /// machine run; a line that is no command leaves its error among the
    /// status lines. A command that does not let the machine run brings
    /// the prompt back.
    pub fn command(&mut self, machine: &mut Machine, input: LineRead) -> (r: Result<
        Action,
        ExecutionError,
    >)
        requires
            old(self).wf(),
            old(machine).wf(),
        ensures
            final(self).wf(),
            final(machine).wf(),
            final(machine).device_list() == old(machine).device_list(),
            match input {
                LineRead::Interrupted => r matches Err(ExecutionError::HaltedByUser),
                LineRead::Eof => r matches Err(ExecutionError::HaltedByUser),
                LineRead::Failed(text) => r matches Err(ExecutionError::ReadlineError(t)) && t@
                    == text@,
                LineRead::Line(line) => {
                    let parsed = if line@.len() == 0 {
                        Ok(old(self)@.last_cmd)
                    } else {
                        command_of(line@)
                    };
                    match parsed {
                        Err(problem) => {
                            &&& r matches Ok(Action::Restart)
                            &&& final(machine)@ == old(machine)@
                            &&& final(self)@ == (SessionView {
                                status: old(self)@.status.push(problem.message_text()),
                                ..old(self)@
                            })
                        },
                        Ok(DebugCommand::EXIT) => {
                            &&& r matches Err(ExecutionError::HaltedByUser)
                            &&& final(machine)@ == old(machine)@
                        },
                        Ok(cmd) => {
                            let run = cmd is CONTINUE || cmd is STEP;
                            let lines = final(self)@.status.skip(old(self)@.status.len() as int);
                            &&& command_post(
                                cmd,
                                old(machine)@,
                                Controls {
                                    should_step: old(self)@.should_step,
                                    prompting: old(self)@.prompting,
                                    run: false,
                                    watchlist: old(self)@.watchlist,
                                },
                                final(machine)@,
                                Controls {
                                    should_step: final(self)@.should_step,
                                    prompting: final(self)@.prompting,
                                    run,
                                    watchlist: final(self)@.watchlist,
                                },
                                lines,
                            )
                            &&& final(self)@.status == old(self)@.status + lines
                            &&& final(self)@.last_cmd == (if run {
                                cmd
                            } else {
                                old(self)@.last_cmd
                            })
                            &&& match r {
                                Ok(Action::Step(request)) => run && step_due(final(machine)@)
                                    && request_view(request) == pending(final(machine)@),
                                Ok(Action::Restart) => !run || !step_due(final(machine)@),
                                _ => false,
                            }
                        },
                    }
                },
            },
    {
        let line = match input {
            LineRead::Line(line) => line,
            // Ctrl-C
            LineRead::Interrupted => { return Err(ExecutionError::HaltedByUser); },
            // Ctrl-D
            LineRead::Eof => { return Err(ExecutionError::HaltedByUser); },
            // If reading fails in any other way then bail with the error
            LineRead::Failed(text) => { return Err(ExecutionError::ReadlineError(text)); },
        };
        // parse and handle debug command
        let command = if line.as_str().unicode_len() == 0 {
            self.last_cmd
        } else {
            match DebugCommand::from_string(line.as_str()) {
                Ok(command) => command,
                Err(e) => {
                    let ghost waiting = self.status@;
                    let message = e.message();
                    self.status.push(message);
                    assert(lines_of(self.status@) =~= lines_of(waiting).push(message@));
                    return Ok(Action::Restart);
                },
            }
        };
        let mut run = false;
        let mut new_status = match command.execute(
            machine,
            &mut self.should_step,
            &mut self.prompting,
            &mut run,
            &mut self.watchlist,
        ) {
            Ok(status) => status,
            Err(e) => { return Err(e); },
        };
        let ghost lines = lines_of(new_status@);
        let ghost waiting = self.status@;
        // Combine vecs
        self.status.append(&mut new_status);
        assert(lines_of(self.status@) =~= lines_of(waiting) + lines);
        assert((lines_of(waiting) + lines).skip(lines_of(waiting).len() as int) =~= lines);
        proof {
            crate::command::watches_stay_peeks(command, old(self)@.watchlist, self@.watchlist);
        }
        // Many commands will instantly return control back to the prompt without
        // stepping execution at all
        if !run {
            return Ok(Action::Restart);
        }
        // Note: this will only get updated on commands that step or continue
        self.last_cmd = command;
        Ok(Session::ready(machine))
    }

    /// Takes what a step returned. A breakpoint brings the prompt back,
    /// sets the pass over it and leaves its message among the status
    /// lines; any other error ends the run. The request for one step is
    /// used up.
    pub fn stepped(&mut self, machine: &mut Machine, result: Result<(), ExecutionError>) -> (r:
        Result<(), ExecutionError>)
        ensures
            final(self).wf() == old(self).wf(),
            final(machine).wf() == old(machine).wf(),
            final(machine).device_list() == old(machine).device_list(),
            match result {
                Ok(_) => {
                    &&& r is Ok
                    &&& final(self)@ == old(self)@
                    &&& final(machine)@ == (MachineView { step_once: false, ..old(machine)@ })
                },
                Err(ExecutionError::Breakpoint(addr)) => {
                    &&& r is Ok
                    &&& final(self)@ == (SessionView {
                        prompting: true,
                        status: old(self)@.status.push(
                            ExecutionError::Breakpoint(addr).message_text(),
                        ),
                        ..old(self)@
                    })
                    &&& final(machine)@ == (MachineView {
                        pass_breakpoint: true,
                        step_once: false,
                        ..old(machine)@
                    })
                },
                Err(e) => {
                    &&& r == Err::<(), ExecutionError>(e)
                    &&& final(self)@ == old(self)@
                    &&& final(machine)@ == old(machine)@
                },
            },
    {
        match result {
            Ok(()) => {},
            // Should errors bail? Or bring up the debugger to explore program state?
            // Bail for now probably, its easier (though worse)
            Err(ExecutionError::Breakpoint(addr)) => {
                self.prompting = true;
                // Give a pass so the next step of execution can make it past the breakpoint
                machine.set_pass_breakpoint(true);
                let ghost waiting = self.status@;
                let message = ExecutionError::Breakpoint(addr).message();
                self.status.push(message);
                assert(lines_of(self.status@) =~= lines_of(waiting).push(message@));
            },
            Err(e) => { return Err(e); },
        }
        machine.set_step_requested(false);
        Ok(())
    }

    /// Whether the prompt is due.
    pub fn prompting(&self) -> (r: bool)
        ensures
            r == self@.prompting,
    {
        self.prompting
    }

    /// The watches, in the order in which they were added.
    pub fn watchlist(&self) -> (r: &Vec<DebugCommand>)
        ensures
            r@ == self@.watchlist,
    {
        &self.watchlist
    }
}

/// The number of bytes of RAM under a top: the top itself, or the whole
/// 32-bit address space where the top is 0.
pub fn ram_size(memory_top: u32) -> (size: u64)
    ensures
        size == (if memory_top == 0 {
            0x1_0000_0000
        } else {
            memory_top as int
        }),
{
    if memory_top == 0 {
        4 * 1024 * 1024 * 1024
    } else {
        memory_top as u64
    }
}

/// The exit code of the host process for the error that ended a run: the
/// guest's status where the guest finished, else 1; with `suppress_status`
/// 0 where the guest finished, else 1.
pub fn exit_code(error: &ExecutionError, suppress_status: bool) -> (code: u8)
    ensures
        code == (match error {
            ExecutionError::FinishedExecution(status) => if suppress_status {
                0
            } else {
                *status
            },
            _ => 1,
        }),
{
    match error {
        ExecutionError::FinishedExecution(status) => if suppress_status {
            0
        } else {
            *status
        },
        _ => 1,
    }
}

/// What is printed when a run has ended: the error's message, unless the
/// guest finished.
pub fn final_message(error: &ExecutionError) -> (message: Option<String>)
    ensures
        match error {
            ExecutionError::FinishedExecution(_) => message is None,
            _ => message matches Some(text) && text@ == error.message_text(),
        },
{
    match error {
        ExecutionError::FinishedExecution(_) => None,
        _ => Some(error.message()),
    }
}

} // verus!

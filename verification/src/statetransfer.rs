use vstd::prelude::*;

use crate::register::Register;

verus! {

/// A message of the control channel to the machine.
#[allow(non_camel_case_types)]
#[derive(Clone, Copy, Debug, PartialEq, Eq)]
pub enum ControlCode {
    RUN,
    STOP,
    STEP,
    RESET,
    LOAD { file: &'static str },
    POKE { address: u32, value: u32 },
    POKEREG { register: Register, value: u32 },
    SETBREAK { address: u32 },
    WATCH { address: u32 },
    WATCHREG { register: Register },
    JMP { address: u32 },
    SPEED { speed: Speed },
}

/// How fast the machine is asked to run.
#[allow(non_camel_case_types)]
#[derive(Clone, Copy, Debug, PartialEq, Eq, Structural)]
pub enum Speed {
    FAST,
    SLOW,
}

/// What a machine publishes of itself once per cycle.
#[derive(Clone, Debug, PartialEq, Eq)]
pub struct MachineState {
    pub pc: u32,
    pub registers: [u32; 31],
    pub cur_inst: String,
    pub memory_changes: Vec<(u32, u32)>,
    pub cycle: u128,
}

impl MachineState {
    /// The state of a machine that has not started.
    pub fn empty() -> (state: MachineState)
        ensures
            state.pc == 0,
            forall|i: int| 0 <= i < 31 ==> state.registers[i] == 0,
            state.cur_inst@ == Seq::<char>::empty(),
            state.memory_changes@ == Seq::<(u32, u32)>::empty(),
            state.cycle == 0,
    {
        MachineState {
            pc: 0,
            registers: [0;31],
            cur_inst: String::new(),
            memory_changes: Vec::new(),
            cycle: 0,
        }
    }
}

} // verus!

use vstd::prelude::*;
use vstd::std_specs::cmp::PartialEqSpecImpl;

use crate::debugger::DebugParseError;
use crate::decode::ParseError;
use crate::devices::DeviceError;
use crate::text::{decimal, decimal_text, hex, hex_text, joined};

verus! {

/// Why the machine stopped.
#[derive(Debug)]
pub enum ExecutionError {
    ParseError(ParseError),
    LoadAccessFault(u32),
    InstructionAccessFault(u32),
    InstructionAddressMisaligned(u32),
    Breakpoint(u32),
    // This isn't really an error, but it is an exceptional condition
    FinishedExecution(u8),
    HaltedByUser,
    /// The host failed to read or write; the text says how.
    IOError(String),
    /// The host failed to read a line; the text says how.
    ReadlineError(String),
    DebugParseError(DebugParseError),
    DeviceError(DeviceError),
    InvalidSyscall(u32),
}

impl ExecutionError {
    /// Two errors are the same when they are of one kind and carry the same
    /// values. What a host or a device reported is not compared: every
    /// `IOError` is the same as every other, and so for `ReadlineError` and
    /// `DeviceError`.
    pub open spec fn same(&self, other: &ExecutionError) -> bool {
        match (self, other) {
            (ExecutionError::ParseError(a), ExecutionError::ParseError(b)) => a == b,
            (ExecutionError::LoadAccessFault(a), ExecutionError::LoadAccessFault(b)) => a == b,
            (
                ExecutionError::InstructionAccessFault(a),
                ExecutionError::InstructionAccessFault(b),
            ) => a == b,
            (
                ExecutionError::InstructionAddressMisaligned(a),
                ExecutionError::InstructionAddressMisaligned(b),
            ) => a == b,
            (ExecutionError::Breakpoint(a), ExecutionError::Breakpoint(b)) => a == b,
            (ExecutionError::FinishedExecution(a), ExecutionError::FinishedExecution(b)) => a == b,
            (ExecutionError::HaltedByUser, ExecutionError::HaltedByUser) => true,
            (ExecutionError::IOError(_), ExecutionError::IOError(_)) => true,
            (ExecutionError::ReadlineError(_), ExecutionError::ReadlineError(_)) => true,
            (ExecutionError::DebugParseError(a), ExecutionError::DebugParseError(b)) => a.same(b),
            (ExecutionError::DeviceError(_), ExecutionError::DeviceError(_)) => true,
            (ExecutionError::InvalidSyscall(a), ExecutionError::InvalidSyscall(b)) => a == b,
            _ => false,
        }
    }
}

impl PartialEq for ExecutionError {
    fn eq(&self, other: &ExecutionError) -> (r: bool) {
        match (self, other) {
            (ExecutionError::ParseError(a), ExecutionError::ParseError(b)) => *a == *b,
            (ExecutionError::LoadAccessFault(a), ExecutionError::LoadAccessFault(b)) => *a == *b,
            (
                ExecutionError::InstructionAccessFault(a),
                ExecutionError::InstructionAccessFault(b),
            ) => *a == *b,
            (
                ExecutionError::InstructionAddressMisaligned(a),
                ExecutionError::InstructionAddressMisaligned(b),
            ) => *a == *b,
            (ExecutionError::Breakpoint(a), ExecutionError::Breakpoint(b)) => *a == *b,
            (ExecutionError::FinishedExecution(a), ExecutionError::FinishedExecution(b)) => *a
                == *b,
            (ExecutionError::HaltedByUser, ExecutionError::HaltedByUser) => true,
            (ExecutionError::IOError(_), ExecutionError::IOError(_)) => true,
            (ExecutionError::ReadlineError(_), ExecutionError::ReadlineError(_)) => true,
            (ExecutionError::DebugParseError(a), ExecutionError::DebugParseError(b)) => *a == *b,
            (ExecutionError::DeviceError(_), ExecutionError::DeviceError(_)) => true,
            (ExecutionError::InvalidSyscall(a), ExecutionError::InvalidSyscall(b)) => *a == *b,
            _ => false,
        }
    }
}

impl PartialEqSpecImpl for ExecutionError {
    open spec fn obeys_eq_spec() -> bool {
        true
    }

    open spec fn eq_spec(&self, other: &ExecutionError) -> bool {
        self.same(other)
    }
}

impl ExecutionError {
    /// What the error says.
    pub open spec fn message_text(&self) -> Seq<char> {
        match self {
            ExecutionError::ParseError(e) => "Failed to decode instruction: "@ + e.message_text(),
            ExecutionError::LoadAccessFault(a) => "Exception while loading value at address "@
                + hex_text(*a),
            ExecutionError::InstructionAccessFault(a) =>
                "Exception while loading instruction at address "@ + hex_text(*a),
            ExecutionError::InstructionAddressMisaligned(a) =>
                "Tried to read misaligned instruction at "@ + hex_text(*a),
            ExecutionError::Breakpoint(a) => "Breakpoint hit at address "@ + hex_text(*a),
            ExecutionError::FinishedExecution(_) => "Successfully finished execution"@,
            ExecutionError::HaltedByUser => "Execution halted by user"@,
            ExecutionError::IOError(text) => "IO error encountered while running VM: "@ + text@,
            ExecutionError::ReadlineError(text) => "Error while reading line: "@ + text@,
            ExecutionError::DebugParseError(e) => "Error while parsing debug command: "@
                + e@.message_text(),
            ExecutionError::DeviceError(e) => "Problem with device: "@ + e.message_text(),
            ExecutionError::InvalidSyscall(n) => "Invalid system call: "@ + decimal_text(*n as nat),
        }
    }

    /// What the error says.
    pub fn message(&self) -> (r: String)
        ensures
            r@ == self.message_text(),
    {
        match self {
            ExecutionError::ParseError(e) => joined(
                "Failed to decode instruction: ",
                e.message().as_str(),
            ),
            ExecutionError::LoadAccessFault(a) => joined(
                "Exception while loading value at address ",
                hex(*a).as_str(),
            ),
            ExecutionError::InstructionAccessFault(a) => joined(
                "Exception while loading instruction at address ",
                hex(*a).as_str(),
            ),
            ExecutionError::InstructionAddressMisaligned(a) => joined(
                "Tried to read misaligned instruction at ",
                hex(*a).as_str(),
            ),
            ExecutionError::Breakpoint(a) => joined("Breakpoint hit at address ", hex(*a).as_str()),
            ExecutionError::FinishedExecution(_) => String::from_str(
                "Successfully finished execution",
            ),
            ExecutionError::HaltedByUser => String::from_str("Execution halted by user"),
            ExecutionError::IOError(text) => joined(
                "IO error encountered while running VM: ",
                text.as_str(),
            ),
            ExecutionError::ReadlineError(text) => joined(
                "Error while reading line: ",
                text.as_str(),
            ),
            ExecutionError::DebugParseError(e) => joined(
                "Error while parsing debug command: ",
                e.message().as_str(),
            ),
            ExecutionError::DeviceError(e) => joined("Problem with device: ", e.message().as_str()),
            ExecutionError::InvalidSyscall(n) => joined(
                "Invalid system call: ",
                decimal(*n as u128).as_str(),
            ),
        }
    }
}

} // verus!

//! A single-hart RV32IM simulator: decoder, executor, address space with
//! memory-mapped devices, the guest's system calls, and a debugger.
//!
//! The machine never does I/O itself. Before a step that carries out a
//! system call, `Machine::host_request` tells what the host has to do; the
//! host's answer goes into `Machine::step_with`. The run loop is driven the
//! same way through `session::Session`.

pub mod alu;
pub mod bits;
pub mod bus;
pub mod command;
pub mod config;
pub mod control;
pub mod debugger;
pub mod decode;
pub mod devices;
pub mod encode;
pub mod environment;
pub mod error;
pub mod execute;
pub mod image;
pub mod machine;
pub mod memory;
pub mod opcode;
pub mod register;
pub mod report;
pub mod session;
pub mod statetransfer;
pub mod text;

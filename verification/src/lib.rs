//! A minimal symbolic processor: single-character instruction symbols act on
//! a bank of single-bit registers, a comparison flag and a run status.
//!
//! - [`model`] holds the processor as a mathematical value and the
//!   transition of each symbol; [`laws`] proves what holds of every machine.
//! - [`processor`] is the executable processor, whose contracts are stated
//!   over the model; [`state`] is the run status it reports.
//! - [`text`] says how a register bank is written out.
//! - [`arguments`] reads the register count that a program is started with.
//! - [`strings`] lists what is taken from the standard library on trust.
//!
//! A symbol that reads or writes a register while the pointer stands outside
//! the bank is a fault. The processor never executes such a symbol:
//! `execute_symbol` rules it out by its precondition, `accepts` tests for it,
//! and `execute_instruction` stops in front of it and reports its position.

pub mod arguments;
pub mod laws;
pub mod model;
pub mod processor;
pub mod state;
pub mod strings;
pub mod text;

pub use processor::Processor;
pub use state::ProcessorState;

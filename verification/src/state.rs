//! The run status that a processor reports.

use vstd::prelude::*;
use vstd::std_specs::cmp::PartialEqSpecImpl;
use crate::model::RunState;

verus! {

/// The run status of a processor.
#[derive(Debug)]
pub enum ProcessorState {
    /// Nothing has gone wrong and the processor has not been halted.
    Okay,
    /// The last status-changing symbol was not understood; the message names it.
    Error(String),
    /// A halt check found its register set.
    Halt,
}

impl View for ProcessorState {
    type V = RunState;

    open spec fn view(&self) -> RunState {
        match self {
            ProcessorState::Okay => RunState::Okay,
            ProcessorState::Error(message) => RunState::Error(message@),
            ProcessorState::Halt => RunState::Halt,
        }
    }
}

impl Clone for ProcessorState {
    fn clone(&self) -> (copy: Self)
        ensures
            copy@ == self@,
    {
        match self {
            ProcessorState::Okay => ProcessorState::Okay,
            ProcessorState::Error(message) => ProcessorState::Error(message.clone()),
            ProcessorState::Halt => ProcessorState::Halt,
        }
    }
}

impl PartialEq for ProcessorState {
    fn eq(&self, other: &Self) -> (equal: bool) {
        match (self, other) {
            (ProcessorState::Okay, ProcessorState::Okay) => true,
            (ProcessorState::Error(mine), ProcessorState::Error(theirs)) => *mine == *theirs,
            (ProcessorState::Halt, ProcessorState::Halt) => true,
            _ => false,
        }
    }
}

impl PartialEqSpecImpl for ProcessorState {
    open spec fn obeys_eq_spec() -> bool {
        true
    }

    open spec fn eq_spec(&self, other: &Self) -> bool {
        self@ == other@
    }
}

} // verus!

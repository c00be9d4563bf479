//! The processor: a register bank, a register pointer, a comparison flag and
//! a run status, driven one instruction symbol at a time.

use vstd::prelude::*;
use vstd::std_specs::iter::IteratorSpec;
use vstd::string::{StrSliceExecFns, StringExecFns};
use crate::model::{invalid_symbol_message, Machine};
use crate::state::ProcessorState;
use crate::strings::{to_uppercase, trim, trimmed, uppercase};
use crate::text::{labelled_text, lemma_separated_push, register_text, separated};

verus! {

/// A symbol-driven processor over a bank of single-bit registers.
///
/// Its view is the [`Machine`] that it stands for; every contract below is
/// stated over that view.
pub struct Processor {
    register_pointer: usize,
    flag_equal: bool,
    registers: Vec<u8>,
    state: ProcessorState,
}

impl View for Processor {
    type V = Machine;

    closed spec fn view(&self) -> Machine {
        Machine {
            registers: Seq::new(self.registers@.len(), |i: int| self.registers@[i] == 1),
            pointer: self.register_pointer as nat,
            flag_equal: self.flag_equal,
            state: self.state@,
        }
    }
}

impl Processor {
    /// The invariant of the representation: every register holds 0 or 1.
    #[verifier::type_invariant]
    spec fn holds_bits(self) -> bool {
        forall|i: int| 0 <= i < self.registers@.len() ==> self.registers@[i] <= 1
    }

    /// Writes `bit` to the register under the pointer. The bank is swapped
    /// out of the processor for the write and swapped back, so that the
    /// processor keeps its invariant at every step in between.
    fn write(&mut self, bit: u8)
        requires
            bit <= 1,
            old(self)@.pointer < old(self)@.registers.len(),
        ensures
            final(self)@ == old(self)@.store(bit == 1),
    {
        proof {
            use_type_invariant(&*self);
        }
        let mut registers: Vec<u8> = Vec::new();
        core::mem::swap(&mut self.registers, &mut registers);
        registers.set(self.register_pointer, bit);
        core::mem::swap(&mut self.registers, &mut registers);
        assert(self@.registers =~= old(self)@.store(bit == 1).registers);
    }

    /// A processor with `register_count` registers, all clear, the pointer on
    /// the first register, the comparison flag set and the status `Okay`.
    pub fn new(register_count: usize) -> (processor: Processor)
        ensures
            processor@ == Machine::initial(register_count as nat),
    {
        let processor = Processor {
            register_pointer: 0,
            flag_equal: true,
            registers: vec![0; register_count],
            state: ProcessorState::Okay,
        };
        assert(processor@.registers =~= Machine::initial(register_count as nat).registers);
        processor
    }

    /// The current run status.
    pub fn get_state(&self) -> (state: ProcessorState)
        ensures
            state@ == self@.state,
    {
        self.state.clone()
    }

    /// Whether `symbol` can be executed in the current state: the test that a
    /// caller makes before `execute_symbol`.
    pub fn accepts(&self, symbol: char) -> (accepted: bool)
        ensures
            accepted == self@.accepts(symbol),
    {
        match symbol {
            '0' | '1' | '+' | '&' | '=' | '!' => self.register_pointer < self.registers.len(),
            ',' => self.register_pointer < usize::MAX,
            _ => true,
        }
    }

    /// The register bank as text: the registers' values in index order,
    /// separated by commas, inside square brackets.
    pub fn register_values_to_string(&self) -> (text: String)
        ensures
            text@ == register_text(self@.registers),
    {
        let ghost bits = self@.registers;
        let mut text = String::from_str("[");
        proof {
            reveal_strlit("[");
        }
        let mut i: usize = 0;
        while i < self.registers.len()
            invariant
                i <= self.registers.len(),
                bits == self@.registers,
                text@ == seq!['['] + separated(bits.take(i as int)),
            decreases self.registers.len() - i,
        {
            if i > 0 {
                text.append(",");
            }
            if self.registers[i] == 1 {
                text.append("1");
            } else {
                text.append("0");
            }
            proof {
                reveal_strlit(",");
                reveal_strlit("0");
                reveal_strlit("1");
                lemma_separated_push(bits.take(i as int), bits[i as int]);
                assert(bits.take(i + 1) =~= bits.take(i as int).push(bits[i as int]));
            }
            i += 1;
        }
        text.append("]");
        proof {
            reveal_strlit("]");
            assert(bits.take(i as int) =~= bits);
        }
        text
    }

    /// One line for display: `label`, a colon and a space, then the register
    /// bank as text.
    pub fn register_values_with_label(&self, label: &str) -> (line: String)
        ensures
            line@ == labelled_text(label@, self@.registers),
    {
        let mut line = String::from_str(label);
        line.append(": ");
        let values = self.register_values_to_string();
        line.append(values.as_str());
        proof {
            reveal_strlit(": ");
        }
        line
    }

    /// One line for display under a tag, which is written in upper case.
    pub fn register_values_with_tag(&self, tag: &str) -> (line: String)
        ensures
            line@ == labelled_text(uppercase(tag@), self@.registers),
    {
        let label = to_uppercase(tag);
        self.register_values_with_label(label.as_str())
    }

    /// Executes one instruction symbol: the processor afterwards is the
    /// processor before, one `step` on.
    ///
    /// A symbol that reads or writes a register while the pointer stands
    /// outside the bank is a fault, and so is advancing a pointer that cannot
    /// grow. The precondition rules both out. `accepts` is the test for it,
    /// and `execute_instruction` makes that test for every symbol of a line.
    pub fn execute_symbol(&mut self, symbol: char)
        requires
            old(self)@.accepts(symbol),
        ensures
            final(self)@ == old(self)@.step(symbol),
    {
        proof {
            use_type_invariant(&*self);
        }
        match symbol {
            '-' | ' ' => {},
            '>' | '[' | ']' => {
                self.register_pointer = 0;
            },
            ',' => {
                self.register_pointer += 1;
            },
            '0' => {
                self.write(0);
            },
            '1' => {
                self.write(1);
            },
            '+' => {
                let inverted: u8 = if self.registers[self.register_pointer] == 0 {
                    1
                } else {
                    0
                };
                self.write(inverted);
            },
            '&' => {
                self.flag_equal = self.flag_equal && self.registers[self.register_pointer] == 1;
            },
            '=' => {
                let bit: u8 = if self.flag_equal {
                    1
                } else {
                    0
                };
                self.write(bit);
                proof {
                    use_type_invariant(&*self);
                }
                self.flag_equal = true;
            },
            '!' => {
                if self.registers[self.register_pointer] == 1 {
                    self.state = ProcessorState::Halt;
                } else {
                    self.state = ProcessorState::Okay;
                }
            },
            _ => {
                let mut message = String::from_str("invalid symbol \"");
                message.push(symbol);
                message.append("\"");
                assert(message@ =~= invalid_symbol_message(symbol));
                self.state = ProcessorState::Error(message);
            },
        }
    }

    /// Executes the symbols of `instruction` from left to right. It stops in
    /// front of the first symbol that the processor does not accept in its
    /// turn and returns that symbol's position; the symbols before it have
    /// been executed.
    pub fn execute_instruction(&mut self, instruction: &str) -> (outcome: Result<(), usize>)
        ensures
            old(self)@.executes(instruction@, outcome, final(self)@),
    {
        // The length is counted once, to bound the position counter.
        let length = instruction.unicode_len();
        let mut symbols = instruction.chars();
        let mut position: usize = 0;
        loop
            invariant
                length == instruction@.len(),
                position <= length,
                symbols.obeys_prophetic_iter_laws(),
                symbols.remaining() == instruction@.skip(position as int),
                old(self)@.accepts_first(instruction@, position as int),
                self@ == old(self)@.run(instruction@.take(position as int)),
            decreases length - position,
        {
            match symbols.next() {
                None => {
                    assert(instruction@.take(position as int) =~= instruction@);
                    return Ok(());
                },
                Some(symbol) => {
                    if !self.accepts(symbol) {
                        return Err(position);
                    }
                    self.execute_symbol(symbol);
                    proof {
                        let longer = instruction@.take(position + 1);
                        assert(longer.drop_last() =~= instruction@.take(position as int));
                        assert(instruction@.skip(position as int).drop_first()
                            =~= instruction@.skip(position + 1));
                    }
                    position += 1;
                },
            }
        }
    }

    /// Executes a line as it was read: the white space around it is dropped
    /// and what is left is executed as an instruction.
    pub fn execute_line(&mut self, line: &str) -> (outcome: Result<(), usize>)
        ensures
            old(self)@.executes(trimmed(line@), outcome, final(self)@),
    {
        self.execute_instruction(trim(line))
    }
}

} // verus!

//! The mathematical model of the processor: its state as plain values and
//! the transition that each instruction symbol performs on it.

use vstd::prelude::*;

verus! {

/// The run status of a machine. `Error` carries the message that names the
/// symbol which was not understood.
pub enum RunState {
    Okay,
    Error(Seq<char>),
    Halt,
}

/// A processor as a mathematical value.
pub struct Machine {
    /// The register bank, one bit per register, in index order.
    pub registers: Seq<bool>,
    /// The index of the register that the next symbol addresses.
    pub pointer: nat,
    /// The conjunction of all comparisons since the flag was last consumed.
    pub flag_equal: bool,
    /// The run status.
    pub state: RunState,
}

/// The message recorded when `symbol` is not part of the instruction
/// alphabet: the words `invalid symbol`, then the symbol in double quotes.
pub open spec fn invalid_symbol_message(symbol: char) -> Seq<char> {
    "invalid symbol \""@ + seq![symbol] + "\""@
}

/// The symbols that do nothing.
pub open spec fn is_no_op(symbol: char) -> bool {
    symbol == '-' || symbol == ' '
}

/// The symbols that restart addressing at the first register.
pub open spec fn is_reset(symbol: char) -> bool {
    symbol == '>' || symbol == '[' || symbol == ']'
}

/// The symbols that read or write the register under the pointer.
pub open spec fn is_register_access(symbol: char) -> bool {
    symbol == '0' || symbol == '1' || symbol == '+' || symbol == '&' || symbol == '='
        || symbol == '!'
}

/// The instruction alphabet. Every other character is an invalid symbol.
pub open spec fn is_known(symbol: char) -> bool {
    is_no_op(symbol) || is_reset(symbol) || symbol == ',' || is_register_access(symbol)
}

impl Machine {
    /// The machine right after construction: every register clear, the
    /// pointer on the first register, the flag set, the status `Okay`.
    pub open spec fn initial(register_count: nat) -> Machine {
        Machine {
            registers: Seq::new(register_count, |i: int| false),
            pointer: 0,
            flag_equal: true,
            state: RunState::Okay,
        }
    }

    /// The bit in the register under the pointer.
    pub open spec fn addressed(self) -> bool
        recommends
            self.pointer < self.registers.len(),
    {
        self.registers[self.pointer as int]
    }

    /// This machine with `bit` written to the register under the pointer.
    pub open spec fn store(self, bit: bool) -> Machine
        recommends
            self.pointer < self.registers.len(),
    {
        Machine { registers: self.registers.update(self.pointer as int, bit), ..self }
    }

    /// Whether `symbol` can be executed in this state. A symbol that reads
    /// or writes a register needs the pointer inside the bank; advancing
    /// needs a pointer that can still grow. Every other symbol, an invalid
    /// one too, is always accepted.
    pub open spec fn accepts(self, symbol: char) -> bool {
        if is_register_access(symbol) {
            self.pointer < self.registers.len()
        } else if symbol == ',' {
            self.pointer < usize::MAX
        } else {
            true
        }
    }

    /// The state after executing `symbol`, meaningful where the machine
    /// accepts it.
    ///
    /// - `-` and space change nothing.
    /// - `>`, `[` and `]` put the pointer back on the first register.
    /// - `,` moves the pointer to the next register.
    /// - `0` and `1` write that bit to the addressed register.
    /// - `+` inverts the addressed register.
    /// - `&` clears the flag unless the addressed register is set.
    /// - `=` writes the flag to the addressed register and sets the flag.
    /// - `!` makes the status `Halt` where the addressed register is set and
    ///   `Okay` where it is clear.
    /// - Any other character makes the status `Error`, with the message that
    ///   names it.
    pub open spec fn step(self, symbol: char) -> Machine
        recommends
            self.accepts(symbol),
    {
        if is_no_op(symbol) {
            self
        } else if is_reset(symbol) {
            Machine { pointer: 0, ..self }
        } else if symbol == ',' {
            Machine { pointer: self.pointer + 1, ..self }
        } else if symbol == '0' {
            self.store(false)
        } else if symbol == '1' {
            self.store(true)
        } else if symbol == '+' {
            self.store(!self.addressed())
        } else if symbol == '&' {
            Machine { flag_equal: self.flag_equal && self.addressed(), ..self }
        } else if symbol == '=' {
            Machine { flag_equal: true, ..self.store(self.flag_equal) }
        } else if symbol == '!' {
            Machine {
                state: if self.addressed() {
                    RunState::Halt
                } else {
                    RunState::Okay
                },
                ..self
            }
        } else {
            Machine { state: RunState::Error(invalid_symbol_message(symbol)), ..self }
        }
    }

    /// The state after executing `symbols` from left to right.
    pub open spec fn run(self, symbols: Seq<char>) -> Machine
        decreases symbols.len(),
    {
        if symbols.len() == 0 {
            self
        } else {
            self.run(symbols.drop_last()).step(symbols.last())
        }
    }

    /// Whether the symbol at `position` is accepted by the state that the
    /// symbols before it lead to.
    pub open spec fn accepts_at(self, symbols: Seq<char>, position: int) -> bool {
        self.run(symbols.take(position)).accepts(symbols[position])
    }

    /// Whether every one of the first `count` symbols is accepted in its
    /// turn.
    pub open spec fn accepts_first(self, symbols: Seq<char>, count: int) -> bool {
        forall|i: int| 0 <= i < count ==> self.accepts_at(symbols, i)
    }

    /// What executing `symbols` one by one reports and leaves behind.
    /// Where every symbol is accepted in its turn, the report is `Ok` and
    /// `after` is the state that the whole run leads to. Otherwise the
    /// report is the position of the first symbol that is not accepted, and
    /// `after` is the state that the symbols in front of it lead to.
    pub open spec fn executes(
        self,
        symbols: Seq<char>,
        outcome: Result<(), usize>,
        after: Machine,
    ) -> bool {
        match outcome {
            Ok(_) => {
                &&& self.accepts_first(symbols, symbols.len() as int)
                &&& after == self.run(symbols)
            },
            Err(position) => {
                &&& position < symbols.len()
                &&& self.accepts_first(symbols, position as int)
                &&& !self.accepts_at(symbols, position as int)
                &&& after == self.run(symbols.take(position as int))
            },
        }
    }
}

} // verus!

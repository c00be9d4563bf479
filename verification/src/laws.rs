//! Laws of the instruction set, stated over the model and proved once for
//! every machine.

use vstd::prelude::*;
use crate::model::{invalid_symbol_message, is_known, Machine, RunState};

verus! {

/// Inverting is its own inverse: `+` executed twice on the same register,
/// with nothing in between, gives back the machine it started from.
pub proof fn lemma_invert_twice_restores(machine: Machine)
    requires
        machine.accepts('+'),
    ensures
        machine.step('+').accepts('+'),
        machine.step('+').step('+') == machine,
{
    assert(machine.step('+').step('+').registers =~= machine.registers);
}

/// `=` consumes the flag: whatever the flag was, it is set afterwards, and
/// the one register under the pointer now holds the flag's former value.
/// No other register, nor the pointer, nor the status changes.
pub proof fn lemma_store_consumes_flag(machine: Machine)
    requires
        machine.accepts('='),
    ensures
        machine.step('=').flag_equal,
        machine.step('=').registers.len() == machine.registers.len(),
        machine.step('=').registers[machine.pointer as int] == machine.flag_equal,
        forall|i: int|
            0 <= i < machine.registers.len() && i != machine.pointer ==> machine.step(
                '=',
            ).registers[i] == machine.registers[i],
        machine.step('=').pointer == machine.pointer,
        machine.step('=').state == machine.state,
{
}

/// `&` can clear the flag and never sets it: the flag afterwards is the flag
/// before in conjunction with the addressed bit.
pub proof fn lemma_compare_narrows(machine: Machine)
    ensures
        machine.step('&').flag_equal == (machine.flag_equal && machine.addressed()),
        machine.step('&').flag_equal ==> machine.flag_equal,
{
}

/// Only `=` sets the flag: once the flag is clear it stays clear through
/// every run of symbols in which `=` does not occur.
pub proof fn lemma_flag_stays_clear_until_store(machine: Machine, symbols: Seq<char>)
    requires
        !machine.flag_equal,
        !symbols.contains('='),
    ensures
        !machine.run(symbols).flag_equal,
    decreases symbols.len(),
{
    if symbols.len() > 0 {
        let shorter = symbols.drop_last();
        assert forall|i: int| 0 <= i < shorter.len() implies shorter[i] != '=' by {
            assert(symbols.contains(symbols[i]));
        }
        lemma_flag_stays_clear_until_store(machine, shorter);
    }
}

/// The status that `!` leaves depends on the addressed bit alone: `Halt`
/// where it is set, `Okay` where it is clear, whatever the status was.
pub proof fn lemma_halt_check_follows_register(machine: Machine)
    ensures
        machine.step('!').state == if machine.addressed() {
            RunState::Halt
        } else {
            RunState::Okay
        },
        machine.step('!').registers == machine.registers,
        machine.step('!').pointer == machine.pointer,
        machine.step('!').flag_equal == machine.flag_equal,
{
}

/// `!` is idempotent: on an unchanged register a second `!` changes nothing.
pub proof fn lemma_halt_check_is_idempotent(machine: Machine)
    ensures
        machine.step('!').step('!') == machine.step('!'),
{
}

/// A character outside the instruction alphabet is always accepted and
/// leaves the status `Error` with the message that names it. Registers,
/// pointer and flag stay as they were.
pub proof fn lemma_unknown_symbol_is_reported(machine: Machine, symbol: char)
    requires
        !is_known(symbol),
    ensures
        machine.accepts(symbol),
        machine.step(symbol) == (Machine {
            state: RunState::Error(invalid_symbol_message(symbol)),
            ..machine
        }),
{
}

/// The message carries the symbol itself: it is the seventeenth of its
/// eighteen characters, so two symbols never share a message.
pub proof fn lemma_message_names_symbol(symbol: char, other: char)
    ensures
        invalid_symbol_message(symbol).len() == 18,
        invalid_symbol_message(symbol)[16] == symbol,
        invalid_symbol_message(symbol) == invalid_symbol_message(other) ==> symbol == other,
{
    reveal_strlit("invalid symbol \"");
    reveal_strlit("\"");
}

/// The run status changes on two occasions only: `!` sets it from the
/// addressed register, and an unknown symbol sets it to `Error`. Every other
/// symbol leaves it as it was, an `Error` or a `Halt` too.
pub proof fn lemma_status_is_kept(machine: Machine, symbol: char)
    requires
        is_known(symbol),
        symbol != '!',
    ensures
        machine.step(symbol).state == machine.state,
{
}

/// The number of registers is fixed at construction: no accepted symbol
/// changes it, and so no run of accepted symbols does.
pub proof fn lemma_bank_size_is_fixed(machine: Machine, symbols: Seq<char>)
    requires
        machine.accepts_first(symbols, symbols.len() as int),
    ensures
        machine.run(symbols).registers.len() == machine.registers.len(),
    decreases symbols.len(),
{
    if symbols.len() > 0 {
        let shorter = symbols.drop_last();
        assert forall|i: int| 0 <= i < shorter.len() implies machine.accepts_at(shorter, i) by {
            assert(machine.accepts_at(symbols, i));
            assert(shorter.take(i) =~= symbols.take(i));
        }
        lemma_bank_size_is_fixed(machine, shorter);
        assert(machine.accepts_at(symbols, symbols.len() - 1));
    }
}

/// Symbols are executed strictly in their order: running two sequences one
/// after the other is running them joined, so each symbol meets the state
/// that the symbols before it have left.
pub proof fn lemma_run_in_order(machine: Machine, first: Seq<char>, second: Seq<char>)
    ensures
        machine.run(first + second) == machine.run(first).run(second),
    decreases second.len(),
{
    if second.len() > 0 {
        lemma_run_in_order(machine, first, second.drop_last());
        assert((first + second).drop_last() =~= first + second.drop_last());
    } else {
        assert(first + second =~= first);
    }
}

/// Executing a sequence of symbols has one outcome: two reports on the same
/// symbols from the same state agree, and so do the states they leave.
pub proof fn lemma_execution_is_determined(
    machine: Machine,
    symbols: Seq<char>,
    first: Result<(), usize>,
    first_after: Machine,
    second: Result<(), usize>,
    second_after: Machine,
)
    requires
        machine.executes(symbols, first, first_after),
        machine.executes(symbols, second, second_after),
    ensures
        first == second,
        first_after == second_after,
{
    // A position that one report refuses is a position that the other
    // report cannot have passed.
    match (first, second) {
        (Ok(one), Ok(other)) => {
            assert(one == other);
        },
        (Ok(_), Err(position)) => {
            assert(machine.accepts_at(symbols, position as int));
        },
        (Err(position), Ok(_)) => {
            assert(machine.accepts_at(symbols, position as int));
        },
        (Err(one), Err(other)) => {
            if one < other {
                assert(machine.accepts_at(symbols, one as int));
            } else if other < one {
                assert(machine.accepts_at(symbols, other as int));
            }
        },
    }
}

} // verus!

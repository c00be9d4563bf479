//! The register count that a program's arguments ask for.

use vstd::prelude::*;

verus! {

/// Whether `symbol` is one of the ten decimal digits.
pub open spec fn is_digit(symbol: char) -> bool {
    '0' <= symbol <= '9'
}

/// The number that a decimal digit stands for.
pub open spec fn digit_value(symbol: char) -> nat
    recommends
        is_digit(symbol),
{
    (symbol as nat - '0' as nat) as nat
}

/// The number that a sequence of decimal digits writes, the most
/// significant digit first.
pub open spec fn decimal_value(digits: Seq<char>) -> nat
    decreases digits.len(),
{
    if digits.len() == 0 {
        0
    } else {
        decimal_value(digits.drop_last()) * 10 + digit_value(digits.last())
    }
}

/// What is left of a text once one leading plus sign is taken off.
pub open spec fn without_sign(text: Seq<char>) -> Seq<char> {
    if text.len() > 0 && text[0] == '+' {
        text.drop_first()
    } else {
        text
    }
}

/// Whether `text` writes a number: an optional plus sign, then one or more
/// decimal digits and nothing else.
pub open spec fn is_decimal(text: Seq<char>) -> bool {
    let digits = without_sign(text);
    digits.len() > 0 && forall|i: int| 0 <= i < digits.len() ==> is_digit(#[trigger] digits[i])
}

/// The count that `text` writes, where it writes a number that a `usize`
/// can hold.
pub open spec fn count_of(text: Seq<char>) -> Option<usize> {
    if is_decimal(text) && decimal_value(without_sign(text)) <= usize::MAX {
        Some(decimal_value(without_sign(text)) as usize)
    } else {
        None
    }
}

/// The register count that a list of program arguments asks for. The first
/// argument is the program's own name; the second, where there is one,
/// writes the count. Without a second argument the count is `default`.
pub open spec fn requested_count(arguments: Seq<Seq<char>>, default: usize) -> Option<usize> {
    if arguments.len() < 2 {
        Some(default)
    } else {
        count_of(arguments[1])
    }
}

/// Calls `str::parse::<usize>`. Nothing is proved of it. The contract
/// claims what the standard library documents of parsing an unsigned
/// integer: the text is an optional plus sign followed by decimal digits
/// only, at least one, and the number must fit the type; anything else,
/// the empty text included, is an error, which becomes `None` here.
#[verifier::external_body]
fn parse_count(text: &str) -> (count: Option<usize>)
    ensures
        count == count_of(text@),
{
    text.parse::<usize>().ok()
}

/// The register count that `arguments` ask for, or `None` where the second
/// argument does not write a count.
pub fn register_count(arguments: &Vec<String>, default: usize) -> (count: Option<usize>)
    ensures
        count == requested_count(arguments.deep_view(), default),
{
    if arguments.len() < 2 {
        Some(default)
    } else {
        parse_count(arguments[1].as_str())
    }
}

} // verus!

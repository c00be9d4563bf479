//! How a register bank is written out as text.

use vstd::prelude::*;

verus! {

/// The digit that shows one bit.
pub open spec fn bit_char(bit: bool) -> char {
    if bit {
        '1'
    } else {
        '0'
    }
}

/// The bits as digits in index order, with a comma between neighbours.
pub open spec fn separated(bits: Seq<bool>) -> Seq<char>
    decreases bits.len(),
{
    if bits.len() == 0 {
        Seq::empty()
    } else if bits.len() == 1 {
        seq![bit_char(bits[0])]
    } else {
        separated(bits.drop_last()) + seq![',', bit_char(bits.last())]
    }
}

/// The register bank as text: the separated digits inside square brackets.
pub open spec fn register_text(bits: Seq<bool>) -> Seq<char> {
    seq!['['] + separated(bits) + seq![']']
}

/// The register bank as text behind a label, a colon and a space.
pub open spec fn labelled_text(label: Seq<char>, bits: Seq<bool>) -> Seq<char> {
    label + seq![':', ' '] + register_text(bits)
}

/// Writing one more bit appends its digit, behind a comma unless it is the
/// first.
pub proof fn lemma_separated_push(bits: Seq<bool>, bit: bool)
    ensures
        separated(bits.push(bit)) == if bits.len() == 0 {
            seq![bit_char(bit)]
        } else {
            separated(bits) + seq![',', bit_char(bit)]
        },
{
    assert(bits.push(bit).drop_last() =~= bits);
}

/// The separated digits by position: `count` bits take `2 * count - 1`
/// characters, the digit of bit `i` stands at position `2 * i`, and a comma
/// behind every digit but the last.
pub proof fn lemma_separated_by_position(bits: Seq<bool>)
    ensures
        separated(bits).len() == if bits.len() == 0 {
            0
        } else {
            2 * bits.len() - 1
        },
        forall|i: int| 0 <= i < bits.len() ==> separated(bits)[2 * i] == bit_char(#[trigger] bits[i]),
        forall|i: int| 0 <= i < bits.len() - 1 ==> #[trigger] separated(bits)[2 * i + 1] == ',',
    decreases bits.len(),
{
    if bits.len() > 1 {
        let shorter = bits.drop_last();
        lemma_separated_by_position(shorter);
        assert forall|i: int| 0 <= i < bits.len() implies separated(bits)[2 * i] == bit_char(
            #[trigger] bits[i],
        ) by {
            if i < shorter.len() {
                assert(shorter[i] == bits[i]);
            }
        }
        assert forall|i: int| 0 <= i < bits.len() - 1 implies #[trigger] separated(bits)[2 * i
            + 1] == ',' by {
            if i < shorter.len() - 1 {
                assert(separated(shorter)[2 * i + 1] == ',');
            }
        }
    }
}

/// The register text by position: `count` registers take `2 * count + 1`
/// characters, or two where there is no register. The text opens with `[`
/// and closes with `]`; the digit of register `i` stands at position
/// `2 * i + 1`, and a comma behind every digit but the last.
pub proof fn lemma_register_text_by_position(bits: Seq<bool>)
    ensures
        register_text(bits).len() == if bits.len() == 0 {
            2
        } else {
            2 * bits.len() + 1
        },
        register_text(bits).first() == '[',
        register_text(bits).last() == ']',
        forall|i: int|
            0 <= i < bits.len() ==> register_text(bits)[2 * i + 1] == bit_char(#[trigger] bits[i]),
        forall|i: int| 0 <= i < bits.len() - 1 ==> #[trigger] register_text(bits)[2 * i + 2] == ',',
{
    lemma_separated_by_position(bits);
    assert forall|i: int| 0 <= i < bits.len() implies register_text(bits)[2 * i + 1] == bit_char(
        #[trigger] bits[i],
    ) by {
        assert(register_text(bits)[2 * i + 1] == separated(bits)[2 * i]);
    }
    assert forall|i: int| 0 <= i < bits.len() - 1 implies #[trigger] register_text(bits)[2 * i
        + 2] == ',' by {
        assert(register_text(bits)[2 * i + 2] == separated(bits)[2 * i + 1]);
    }
}

} // verus!

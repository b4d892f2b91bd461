//! Column labels in the bijective base-26 numeral system: `A` to `Z`, then
//! `AA`, `AB` and so on, with no digit for zero.

use vstd::prelude::*;
use vstd::string::*;

verus! {

/// The letter that stands for the digit `d`, where digit `1` is `A` and
/// digit `26` is `Z`.
pub open spec fn digit_letter(d: int) -> char {
    ((64 + d) as u8) as char
}

/// The digit that the letter `c` stands for: `1` for `A`, `26` for `Z`.
pub open spec fn letter_digit(c: char) -> int {
    (c as u32) as int - 64
}

/// The label of the 1-based column `n`. Column `0` has the empty label.
pub open spec fn column_label(n: nat) -> Seq<char>
    decreases n,
{
    if n == 0 {
        Seq::empty()
    } else {
        column_label(((n - 1) / 26) as nat).push(digit_letter((n - 1) % 26 + 1))
    }
}

/// Whether every character of `label` is one of `A` to `Z`.
pub open spec fn is_label(label: Seq<char>) -> bool {
    forall|i: int| 0 <= i < label.len() ==> 1 <= letter_digit(#[trigger] label[i]) <= 26
}

/// The column number that `label` denotes, read as a base-26 numeral whose
/// digits run from 1 to 26. The empty label denotes `0`.
pub open spec fn label_value(label: Seq<char>) -> int
    decreases label.len(),
{
    if label.len() == 0 {
        0
    } else {
        label_value(label.drop_last()) * 26 + letter_digit(label.last())
    }
}

/// Reading a digit's letter gives the digit back.
pub proof fn lemma_digit_letter_inverse(d: int)
    requires
        1 <= d <= 26,
    ensures
        letter_digit(digit_letter(d)) == d,
{
}

/// Decoding the label of column `n` gives `n` back, and the label is made
/// of the letters `A` to `Z` only.
pub proof fn lemma_label_round_trip(n: nat)
    ensures
        is_label(column_label(n)),
        label_value(column_label(n)) == n,
    decreases n,
{
    if n > 0 {
        let rest = ((n - 1) / 26) as nat;
        let d = (n - 1) % 26 + 1;
        lemma_label_round_trip(rest);
        lemma_digit_letter_inverse(d);
        let label = column_label(n);
        assert(label == column_label(rest).push(digit_letter(d)));
        assert(label.drop_last() =~= column_label(rest));
        assert(label.last() == digit_letter(d));
        assert forall|i: int| 0 <= i < label.len() implies 1 <= letter_digit(
            #[trigger] label[i],
        ) <= 26 by {
            if i < label.len() - 1 {
                assert(label[i] == column_label(rest)[i]);
            }
        }
    }
}

/// Labelling the column that a label denotes gives the label back: the
/// labels over `A` to `Z` and the column numbers correspond one to one.
pub proof fn lemma_value_round_trip(label: Seq<char>)
    requires
        is_label(label),
    ensures
        label_value(label) >= 0,
        label.len() > 0 ==> label_value(label) >= 1,
        column_label(label_value(label) as nat) == label,
    decreases label.len(),
{
    if label.len() > 0 {
        let rest = label.drop_last();
        let c = label[label.len() - 1];
        let d = letter_digit(c);
        assert(1 <= d <= 26);
        assert(is_label(rest)) by {
            assert forall|i: int| 0 <= i < rest.len() implies 1 <= letter_digit(
                #[trigger] rest[i],
            ) <= 26 by {
                assert(rest[i] == label[i]);
            }
        }
        lemma_value_round_trip(rest);
        let n = label_value(label);
        assert(n == label_value(rest) * 26 + d);
        assert((n - 1) / 26 == label_value(rest) && (n - 1) % 26 == d - 1);
        assert(digit_letter(d) == c) by {
            vstd::utf8::char_u32_cast(c, c as u32);
        }
        assert(rest.push(c) =~= label);
    }
}

/// The label of the 1-based column `number` as a string; empty for `0`.
pub fn number_to_column_name(number: u32) -> (name: String)
    ensures
        name@ == column_label(number as nat),
{
    let alphabet = "ABCDEFGHIJKLMNOPQRSTUVWXYZ";
    proof {
        reveal_strlit("ABCDEFGHIJKLMNOPQRSTUVWXYZ");
    }
    let mut rest: u32 = number;
    let mut name = String::new();
    while rest > 0
        invariant
            alphabet@.len() == 26,
            is_ascii(alphabet),
            forall|d: int| 0 <= d < 26 ==> #[trigger] alphabet@[d] == digit_letter(d + 1),
            column_label(number as nat) == column_label(rest as nat) + name@,
        decreases rest,
    {
        let digit: usize = ((rest - 1) % 26) as usize;
        let letter = alphabet.substring_ascii(digit, digit + 1);
        proof {
            let higher = column_label(((rest - 1) / 26) as nat);
            assert(letter@ =~= seq![digit_letter(digit + 1)]);
            assert(higher.push(digit_letter(digit + 1)) + name@ =~= higher + (letter@ + name@));
        }
        name = String::from_str(letter).concat(name.as_str());
        rest = (rest - 1) / 26;
    }
    name
}

} // verus!

//! Decimal numerals, as the header column shows the row numbers.

use vstd::prelude::*;
use vstd::string::*;

verus! {

/// The character of the decimal digit `d`.
pub open spec fn digit_char(d: int) -> char {
    ((48 + d) as u8) as char
}

/// The decimal numeral of `n`, without leading zeros; `0` is `"0"`.
pub open spec fn decimal(n: nat) -> Seq<char>
    decreases n,
{
    if n < 10 {
        seq![digit_char(n as int)]
    } else {
        decimal(n / 10).push(digit_char((n % 10) as int))
    }
}

/// The decimal numeral of `number` as a string.
pub fn decimal_string(number: usize) -> (text: String)
    ensures
        text@ == decimal(number as nat),
{
    let digits = "0123456789";
    proof {
        reveal_strlit("0123456789");
    }
    let last: usize = number % 10;
    let mut text = String::from_str(digits.substring_ascii(last, last + 1));
    let mut rest: usize = number / 10;
    assert(text@ =~= seq![digit_char(last as int)]);
    while rest > 0
        invariant
            digits@.len() == 10,
            is_ascii(digits),
            forall|d: int| 0 <= d < 10 ==> #[trigger] digits@[d] == digit_char(d),
            text@.len() > 0,
            rest == 0 ==> decimal(number as nat) == text@,
            rest > 0 ==> decimal(number as nat) == decimal(rest as nat) + text@,
        decreases rest,
    {
        let digit: usize = rest % 10;
        let numeral = digits.substring_ascii(digit, digit + 1);
        proof {
            assert(numeral@ =~= seq![digit_char(digit as int)]);
            if rest >= 10 {
                let higher = decimal((rest / 10) as nat);
                assert(higher.push(digit_char(digit as int)) + text@ =~= higher + (numeral@
                    + text@));
            } else {
                assert(decimal(rest as nat) + text@ =~= numeral@ + text@);
            }
        }
        text = String::from_str(numeral).concat(text.as_str());
        rest = rest / 10;
    }
    text
}

} // verus!

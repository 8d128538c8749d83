//! Building human-readable text: decimal numbers and concatenation.

use crate::encoding::decimal;
use vstd::prelude::*;

verus! {

/// The decimal text of `x` as characters.
pub open spec fn decimal_chars(x: nat) -> Seq<char> {
    decimal(x).map_values(|b: u8| b as char)
}

/// The one-character text of a decimal digit.
fn digit_text(d: u64) -> (text: &'static str)
    requires
        d < 10,
    ensures
        text@ == seq![((48 + d) as u8) as char],
{
    if d == 0 {
        proof { reveal_strlit("0"); }
        "0"
    } else if d == 1 {
        proof { reveal_strlit("1"); }
        "1"
    } else if d == 2 {
        proof { reveal_strlit("2"); }
        "2"
    } else if d == 3 {
        proof { reveal_strlit("3"); }
        "3"
    } else if d == 4 {
        proof { reveal_strlit("4"); }
        "4"
    } else if d == 5 {
        proof { reveal_strlit("5"); }
        "5"
    } else if d == 6 {
        proof { reveal_strlit("6"); }
        "6"
    } else if d == 7 {
        proof { reveal_strlit("7"); }
        "7"
    } else if d == 8 {
        proof { reveal_strlit("8"); }
        "8"
    } else {
        proof { reveal_strlit("9"); }
        "9"
    }
}

/// Appends the decimal text of `x` to `text`.
pub fn push_decimal_text(text: &mut String, x: u64)
    ensures
        final(text)@ == old(text)@ + decimal_chars(x as nat),
    decreases x,
{
    if x < 10 {
        text.append(digit_text(x));
        assert(decimal_chars(x as nat) =~= seq![((48 + x) as u8) as char]);
    } else {
        push_decimal_text(text, x / 10);
        text.append(digit_text(x % 10));
        assert(decimal(x as nat) == decimal((x / 10) as nat) + seq![(48 + x % 10) as u8]);
        assert(decimal_chars(x as nat) =~= decimal_chars((x / 10) as nat) + seq![
            ((48 + x % 10) as u8) as char,
        ]);
    }
}

/// Returns `prefix` followed by `rest`.
pub fn concat_text(prefix: &str, rest: &str) -> (text: String)
    ensures
        text@ == prefix@ + rest@,
{
    let mut text = String::from_str(prefix);
    text.append(rest);
    text
}

} // verus!

use vstd::prelude::*;
use vstd::string::*;

verus! {

/// The character that writes a digit.
pub open spec fn digit_char(digit: nat) -> char {
    if digit == 0 {
        '0'
    } else if digit == 1 {
        '1'
    } else if digit == 2 {
        '2'
    } else if digit == 3 {
        '3'
    } else if digit == 4 {
        '4'
    } else if digit == 5 {
        '5'
    } else if digit == 6 {
        '6'
    } else if digit == 7 {
        '7'
    } else if digit == 8 {
        '8'
    } else {
        '9'
    }
}

/// A number written in decimal, without sign or leading zeros.
pub open spec fn decimal(number: nat) -> Seq<char>
    decreases number,
{
    if number < 10 {
        seq![digit_char(number)]
    } else {
        decimal(number / 10).push(digit_char(number % 10))
    }
}

fn digit_text(digit: u32) -> (text: &'static str)
    requires
        digit < 10,
    ensures
        text@ == seq![digit_char(digit as nat)],
{
    proof {
        reveal_strlit("0");
        reveal_strlit("1");
        reveal_strlit("2");
        reveal_strlit("3");
        reveal_strlit("4");
        reveal_strlit("5");
        reveal_strlit("6");
        reveal_strlit("7");
        reveal_strlit("8");
        reveal_strlit("9");
    }
    let text = if digit == 0 {
        "0"
    } else if digit == 1 {
        "1"
    } else if digit == 2 {
        "2"
    } else if digit == 3 {
        "3"
    } else if digit == 4 {
        "4"
    } else if digit == 5 {
        "5"
    } else if digit == 6 {
        "6"
    } else if digit == 7 {
        "7"
    } else if digit == 8 {
        "8"
    } else {
        "9"
    };
    assert(text@ =~= seq![digit_char(digit as nat)]);
    text
}

/// Writes a number in decimal at the end of a text.
pub fn push_decimal(text: &mut String, number: u32)
    ensures
        final(text)@ == old(text)@ + decimal(number as nat),
    decreases number,
{
    if number >= 10 {
        push_decimal(text, number / 10);
    }
    text.append(digit_text(number % 10));
    proof {
        if number >= 10 {
            assert(old(text)@ + decimal(number as nat / 10) + seq![
                digit_char(number as nat % 10),
            ] =~= old(text)@ + decimal(number as nat));
        }
    }
}

/// Whether a text reads exactly as a given word.
pub fn reads_as(text: &str, word: &str) -> (same: bool)
    ensures
        same == (text@ == word@),
{
    let left = String::from_str(text);
    let right = String::from_str(word);
    left == right
}

} // verus!

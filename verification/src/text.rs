//! The text in which a `FileTime` is shown.

use vstd::prelude::*;
use vstd::string::*;

verus! {

/// The character of a decimal digit.
pub open spec fn digit_char(digit: nat) -> char
    recommends
        digit < 10,
{
    if digit == 0 {
        '0'
    } else if digit == 1 {
        '1'
    } else if digit == 2 {
        '2'
    } else if digit == 3 {
        '3'
    } else if digit == 4 {
        '4'
    } else if digit == 5 {
        '5'
    } else if digit == 6 {
        '6'
    } else if digit == 7 {
        '7'
    } else if digit == 8 {
        '8'
    } else {
        '9'
    }
}

/// A number in decimal, without leading zeros.
pub open spec fn decimal_digits(value: nat) -> Seq<char>
    decreases value,
{
    if value < 10 {
        seq![digit_char(value)]
    } else {
        decimal_digits(value / 10).push(digit_char(value % 10))
    }
}

/// The line that shows a value: the instant as the calendar displays it,
/// the whole seconds, and the sub-second part in nanoseconds.
pub open spec fn rendered_text(stamp: Seq<char>, secs: nat, nanos: nat) -> Seq<char> {
    "DateTime="@ + stamp + " secs="@ + decimal_digits(secs) + " nsecs="@ + decimal_digits(nanos)
}

/// The digits still to be written, followed by those that are.
spec fn digits_before(rest: nat, written: Seq<char>) -> Seq<char> {
    if rest == 0 {
        written
    } else {
        decimal_digits(rest) + written
    }
}

fn digit_text(digit: u8) -> (text: &'static str)
    requires
        digit < 10,
    ensures
        text@ == seq![digit_char(digit as nat)],
{
    proof {
        reveal_strlit("0");
        reveal_strlit("1");
        reveal_strlit("2");
        reveal_strlit("3");
        reveal_strlit("4");
        reveal_strlit("5");
        reveal_strlit("6");
        reveal_strlit("7");
        reveal_strlit("8");
        reveal_strlit("9");
    }
    let text = if digit == 0 {
        "0"
    } else if digit == 1 {
        "1"
    } else if digit == 2 {
        "2"
    } else if digit == 3 {
        "3"
    } else if digit == 4 {
        "4"
    } else if digit == 5 {
        "5"
    } else if digit == 6 {
        "6"
    } else if digit == 7 {
        "7"
    } else if digit == 8 {
        "8"
    } else {
        "9"
    };
    assert(text@ =~= seq![digit_char(digit as nat)]);
    text
}

/// Writes a number in decimal.
pub fn decimal_string(value: u128) -> (text: String)
    ensures
        text@ == decimal_digits(value as nat),
{
    let mut text = String::from_str(digit_text((value % 10) as u8));
    let mut rest: u128 = value / 10;
    assert(digits_before(rest as nat, text@) =~= decimal_digits(value as nat));
    while rest > 0
        invariant
            digits_before(rest as nat, text@) == decimal_digits(value as nat),
        decreases rest,
    {
        let ghost written = text@;
        let ghost before = rest;
        text = String::from_str(digit_text((rest % 10) as u8)).concat(text.as_str());
        rest = rest / 10;
        assert(digits_before(rest as nat, text@) =~= digits_before(before as nat, written));
    }
    text
}

/// Writes the line that shows a value.
pub fn compose_text(stamp: &str, secs: u128, nanos: u128) -> (text: String)
    ensures
        text@ == rendered_text(stamp@, secs as nat, nanos as nat),
{
    let mut text = String::from_str("DateTime=");
    text.append(stamp);
    text.append(" secs=");
    text.append(decimal_string(secs).as_str());
    text.append(" nsecs=");
    text.append(decimal_string(nanos).as_str());
    text
}

} // verus!

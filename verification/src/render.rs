//! The text shown for an argument number.

use crate::codec::ArgumentNumber;
use vstd::prelude::*;
use vstd::string::StringExecFns;

verus! {

/// The character that writes a single decimal digit.
pub open spec fn digit(value: nat) -> char
    recommends
        value < 10,
{
    seq!['0', '1', '2', '3', '4', '5', '6', '7', '8', '9'][value as int]
}

/// A number written in decimal, without leading zeros.
pub open spec fn decimal(value: nat) -> Seq<char>
    decreases value,
{
    if value < 10 {
        seq![digit(value)]
    } else {
        decimal(value / 10).push(digit(value % 10))
    }
}

/// The text for an argument number: a fixed phrase that names the kind of
/// argument, then the number in decimal.
pub open spec fn rendered(argument: ArgumentNumber) -> Seq<char> {
    match argument {
        ArgumentNumber::Parameter(number) => "associated with parameter number "@ + decimal(
            number as nat,
        ),
        ArgumentNumber::Session(number) => "associated with session number "@ + decimal(
            number as nat,
        ),
        ArgumentNumber::Handle(number) => "associated with handle number "@ + decimal(
            number as nat,
        ),
    }
}

/// The one-character text of a decimal digit.
fn digit_text(value: u8) -> (text: &'static str)
    requires
        value < 10,
    ensures
        text@ == seq![digit(value as nat)],
{
    proof {
        reveal_strlit("0");
        reveal_strlit("1");
        reveal_strlit("2");
        reveal_strlit("3");
        reveal_strlit("4");
        reveal_strlit("5");
        reveal_strlit("6");
        reveal_strlit("7");
        reveal_strlit("8");
        reveal_strlit("9");
    }
    let text = match value {
        0 => "0",
        1 => "1",
        2 => "2",
        3 => "3",
        4 => "4",
        5 => "5",
        6 => "6",
        7 => "7",
        8 => "8",
        _ => "9",
    };
    assert(text@ =~= seq![digit(value as nat)]);
    text
}

/// Appends a number in decimal to a text.
fn append_decimal(text: &mut String, value: u8)
    ensures
        final(text)@ == old(text)@ + decimal(value as nat),
{
    if value >= 100 {
        text.append(digit_text(value / 100));
    }
    if value >= 10 {
        text.append(digit_text((value / 10) % 10));
    }
    text.append(digit_text(value % 10));
    proof {
        let number = value as nat;
        if number >= 100 {
            assert(decimal(number / 100) == seq![digit(number / 100)]);
            assert(decimal(number / 10) == decimal(number / 100).push(digit((number / 10) % 10)));
        } else if number >= 10 {
            assert(decimal(number / 10) == seq![digit(number / 10)]);
        }
        assert(decimal(number) == if number < 10 {
            seq![digit(number)]
        } else {
            decimal(number / 10).push(digit(number % 10))
        });
        assert(final(text)@ =~= old(text)@ + decimal(number));
    }
}

impl ArgumentNumber {
    /// Writes out which argument is meant, for a message to the caller of a
    /// command.
    pub fn render(&self) -> (text: String)
        ensures
            text@ == rendered(*self),
    {
        match self {
            ArgumentNumber::Parameter(number) => {
                let mut text = String::from_str("associated with parameter number ");
                append_decimal(&mut text, *number);
                text
            },
            ArgumentNumber::Session(number) => {
                let mut text = String::from_str("associated with session number ");
                append_decimal(&mut text, *number);
                text
            },
            ArgumentNumber::Handle(number) => {
                let mut text = String::from_str("associated with handle number ");
                append_decimal(&mut text, *number);
                text
            },
        }
    }
}

} // verus!

//! The argument number and its one-byte encoding.
//!
//! | bits    | read when      | meaning                          |
//! |---------|----------------|----------------------------------|
//! | 0       | always         | set: the argument is a parameter |
//! | 5       | bit 0 is clear | set: a session; clear: a handle  |
//! | 2 ..= 5 | bit 0 is set   | the parameter's number           |
//! | 2 ..= 4 | bit 0 is clear | the session's or handle's number |
//!
//! Bits 1, 6 and 7 carry nothing: decoding does not look at them and encoding
//! leaves them clear.

use crate::bits::{
    bit, bits, get_bit, get_bit_range, set_bit, set_bit_range, with_bit, with_bits,
};
use vstd::arithmetic::power2::lemma2_to64;
use vstd::prelude::*;
use vstd::std_specs::convert::FromSpecImpl;

verus! {

/// The bit that says that the argument is a parameter.
pub const PARAMETER_FLAG: usize = 0;

/// The bit that tells a session from a handle where the argument is no
/// parameter.
pub const SESSION_FLAG: usize = 5;

/// The lowest bit of the number, whatever the kind of argument.
pub const NUMBER_LSB: usize = 2;

/// The highest bit of a parameter's number.
pub const PARAMETER_NUMBER_MSB: usize = 5;

/// The highest bit of a session's number.
pub const SESSION_NUMBER_MSB: usize = 4;

/// The highest bit of a handle's number.
pub const HANDLE_NUMBER_MSB: usize = 4;

/// The argument that a format-one response code is associated with.
#[derive(Copy, Clone, Debug, PartialEq, Eq, Hash, Structural)]
pub enum ArgumentNumber {
    /// The nth parameter of the command.
    Parameter(u8),
    /// The nth handle of the command.
    Handle(u8),
    /// The nth session of the command.
    Session(u8),
}

/// The argument number that a byte stands for.
///
/// The parameter flag decides first, then the session flag; the number is
/// read from the field of the kind so chosen. No other bit is looked at.
pub open spec fn decode(byte: u8) -> ArgumentNumber {
    if bit(byte, PARAMETER_FLAG as nat) {
        ArgumentNumber::Parameter(bits(byte, PARAMETER_NUMBER_MSB as nat, NUMBER_LSB as nat) as u8)
    } else if bit(byte, SESSION_FLAG as nat) {
        ArgumentNumber::Session(bits(byte, SESSION_NUMBER_MSB as nat, NUMBER_LSB as nat) as u8)
    } else {
        ArgumentNumber::Handle(bits(byte, HANDLE_NUMBER_MSB as nat, NUMBER_LSB as nat) as u8)
    }
}

/// The byte that stands for an argument number.
///
/// A parameter is 1 for its flag plus its number in units of 4, the number
/// taken modulo 16. A session is 32 for its flag plus its number in units of
/// 4, the number taken modulo 8. A handle is its number in units of 4, the
/// number taken modulo 8.
pub open spec fn encode(argument: ArgumentNumber) -> u8 {
    match argument {
        ArgumentNumber::Parameter(number) => (1 + 4 * (number % 16)) as u8,
        ArgumentNumber::Session(number) => (32 + 4 * (number % 8)) as u8,
        ArgumentNumber::Handle(number) => (4 * (number % 8)) as u8,
    }
}

/// The two flags and the two number fields of this layout, by the value of
/// the byte alone.
pub proof fn lemma_fields_by_value(byte: u8)
    ensures
        bit(byte, 0) <==> byte % 2 == 1,
        bit(byte, 5) <==> (byte / 32) % 2 == 1,
        bits(byte, 5, 2) == (byte / 4) % 16,
        bits(byte, 4, 2) == (byte / 4) % 8,
{
    lemma2_to64();
}

/// What writing a flag or a number field of this layout does to the value of
/// the byte.
pub proof fn lemma_updates_by_value(byte: u8, flag: bool, number: u8)
    ensures
        with_bit(byte, 0, flag) == byte - byte % 2 + (if flag { 1int } else { 0int }),
        with_bit(byte, 5, flag) == byte - ((byte / 32) % 2) * 32 + (if flag { 32int } else { 0int }),
        with_bits(byte, 5, 2, number) == byte - ((byte / 4) % 16) * 4 + (number % 16) * 4,
        with_bits(byte, 4, 2, number) == byte - ((byte / 4) % 8) * 4 + (number % 8) * 4,
{
    lemma2_to64();
    let written: u8 = if flag { 1 } else { 0 };
    assert(with_bits(byte, 0, 0, written) == byte - ((byte as nat / 1) % 2) * 1 + (written as nat
        % 2) * 1);
    assert(with_bits(byte, 5, 5, written) == byte - ((byte as nat / 32) % 2) * 32 + (written as nat
        % 2) * 32);
}

impl From<u8> for ArgumentNumber {
    /// Reads the argument number out of its byte. Every byte stands for one.
    fn from(value: u8) -> (argument: Self)
        ensures
            argument == decode(value),
    {
        if get_bit(value, PARAMETER_FLAG) {
            ArgumentNumber::Parameter(get_bit_range(value, PARAMETER_NUMBER_MSB, NUMBER_LSB))
        } else if get_bit(value, SESSION_FLAG) {
            ArgumentNumber::Session(get_bit_range(value, SESSION_NUMBER_MSB, NUMBER_LSB))
        } else {
            ArgumentNumber::Handle(get_bit_range(value, HANDLE_NUMBER_MSB, NUMBER_LSB))
        }
    }
}

impl FromSpecImpl<u8> for ArgumentNumber {
    open spec fn obeys_from_spec() -> bool {
        true
    }

    open spec fn from_spec(value: u8) -> Self {
        decode(value)
    }
}

impl From<ArgumentNumber> for u8 {
    /// Writes the argument number into a byte of its own. A number too wide
    /// for its field loses its high bits.
    fn from(argument_number: ArgumentNumber) -> (byte: u8)
        ensures
            byte == encode(argument_number),
    {
        let mut byte: u8 = 0;
        match argument_number {
            ArgumentNumber::Parameter(number) => {
                proof {
                    lemma_updates_by_value(0, true, number);
                    lemma_updates_by_value(1, true, number);
                }
                set_bit(&mut byte, PARAMETER_FLAG, true);
                set_bit_range(&mut byte, PARAMETER_NUMBER_MSB, NUMBER_LSB, number);
            },
            ArgumentNumber::Session(number) => {
                proof {
                    lemma_updates_by_value(0, false, number);
                    lemma_updates_by_value(0, true, number);
                    lemma_updates_by_value(32, true, number);
                }
                set_bit(&mut byte, PARAMETER_FLAG, false);
                set_bit(&mut byte, SESSION_FLAG, true);
                set_bit_range(&mut byte, SESSION_NUMBER_MSB, NUMBER_LSB, number);
            },
            ArgumentNumber::Handle(number) => {
                proof {
                    lemma_updates_by_value(0, false, number);
                }
                set_bit(&mut byte, PARAMETER_FLAG, false);
                set_bit(&mut byte, SESSION_FLAG, false);
                set_bit_range(&mut byte, HANDLE_NUMBER_MSB, NUMBER_LSB, number);
            },
        }
        byte
    }
}

impl FromSpecImpl<ArgumentNumber> for u8 {
    open spec fn obeys_from_spec() -> bool {
        true
    }

    open spec fn from_spec(argument_number: ArgumentNumber) -> u8 {
        encode(argument_number)
    }
}

} // verus!

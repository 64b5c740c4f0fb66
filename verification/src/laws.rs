//! What holds of the encoding for every byte and every argument number.

use crate::codec::{
    decode, encode, lemma_fields_by_value, ArgumentNumber, HANDLE_NUMBER_MSB, NUMBER_LSB,
    PARAMETER_FLAG, PARAMETER_NUMBER_MSB, SESSION_FLAG, SESSION_NUMBER_MSB,
};
use crate::bits::{bit, bits};
use vstd::arithmetic::power2::lemma2_to64;
use vstd::prelude::*;

verus! {

/// Whether the number of an argument fits the field of its kind: four bits
/// for a parameter, three for a session or a handle.
pub open spec fn fits(argument: ArgumentNumber) -> bool {
    match argument {
        ArgumentNumber::Parameter(number) => number < 16,
        ArgumentNumber::Session(number) => number < 8,
        ArgumentNumber::Handle(number) => number < 8,
    }
}

/// The argument number with only as many low bits of its number as the field
/// of its kind holds.
pub open spec fn truncated(argument: ArgumentNumber) -> ArgumentNumber {
    match argument {
        ArgumentNumber::Parameter(number) => ArgumentNumber::Parameter(number % 16),
        ArgumentNumber::Session(number) => ArgumentNumber::Session(number % 8),
        ArgumentNumber::Handle(number) => ArgumentNumber::Handle(number % 8),
    }
}

/// Every byte stands for an argument number of one of the three kinds, and
/// the number read fits the field of its kind.
pub proof fn lemma_decode_total(byte: u8)
    ensures
        decode(byte) is Parameter || decode(byte) is Session || decode(byte) is Handle,
        fits(decode(byte)),
{
    lemma_fields_by_value(byte);
}

/// Decoding an encoded argument number gives it back with its number cut to
/// the width of its field.
pub proof fn lemma_decode_encode(argument: ArgumentNumber)
    ensures
        decode(encode(argument)) == truncated(argument),
{
    lemma_fields_by_value(encode(argument));
}

/// An argument number whose number fits its field comes back unchanged from
/// encoding and then decoding: parameters 0 to 15, sessions and handles 0 to
/// 7.
pub proof fn lemma_round_trip(argument: ArgumentNumber)
    requires
        fits(argument),
    ensures
        decode(encode(argument)) == argument,
{
    lemma_decode_encode(argument);
}

/// Encoding a decoded byte gives the byte back with bits 1, 6 and 7 cleared:
/// the bytes that encoding produces are those that come back unchanged.
pub proof fn lemma_encode_decode(byte: u8)
    ensures
        encode(decode(byte)) == byte & 0b0011_1101,
{
    lemma_fields_by_value(byte);
    assert(byte & 0b0011_1101 == (if byte % 2 == 1 {
        1 + 4 * ((byte / 4) % 16)
    } else if (byte / 32) % 2 == 1 {
        32 + 4 * ((byte / 4) % 8)
    } else {
        4 * ((byte / 4) % 8)
    })) by (bit_vector);
}

/// Encoding leaves bits 1, 6 and 7 clear.
pub proof fn lemma_encode_unused_bits_clear(argument: ArgumentNumber)
    ensures
        !bit(encode(argument), 1),
        !bit(encode(argument), 6),
        !bit(encode(argument), 7),
{
    lemma2_to64();
    let byte = encode(argument);
    assert(bit(byte, 1) <==> (byte as nat / 2) % 2 == 1);
    assert(bit(byte, 6) <==> (byte as nat / 64) % 2 == 1);
    assert(bit(byte, 7) <==> (byte as nat / 128) % 2 == 1);
}

/// A byte with the parameter flag set stands for a parameter, whatever its
/// session flag says: that bit is then the top bit of the number.
pub proof fn lemma_parameter_takes_precedence(byte: u8)
    requires
        bit(byte, PARAMETER_FLAG as nat),
    ensures
        decode(byte) == ArgumentNumber::Parameter(
            bits(byte, PARAMETER_NUMBER_MSB as nat, NUMBER_LSB as nat) as u8,
        ),
        bits(byte, PARAMETER_NUMBER_MSB as nat, NUMBER_LSB as nat) == bits(
            byte,
            SESSION_NUMBER_MSB as nat,
            NUMBER_LSB as nat,
        ) + (if bit(byte, SESSION_FLAG as nat) {
            8nat
        } else {
            0nat
        }),
{
    lemma_fields_by_value(byte);
}

/// A byte with the parameter flag clear stands for a session where the
/// session flag is set, and for a handle where it is clear.
pub proof fn lemma_session_flag_disambiguates(byte: u8)
    requires
        !bit(byte, PARAMETER_FLAG as nat),
    ensures
        bit(byte, SESSION_FLAG as nat) ==> decode(byte) == ArgumentNumber::Session(
            bits(byte, SESSION_NUMBER_MSB as nat, NUMBER_LSB as nat) as u8,
        ),
        !bit(byte, SESSION_FLAG as nat) ==> decode(byte) == ArgumentNumber::Handle(
            bits(byte, HANDLE_NUMBER_MSB as nat, NUMBER_LSB as nat) as u8,
        ),
{
}

/// Bits 6 and 7 do not matter to decoding: setting any of them in a byte
/// leaves the kind and the number that it stands for as they were.
pub proof fn lemma_high_bits_ignored(byte: u8, high: u8)
    ensures
        decode(byte | (high & 0xc0)) == decode(byte),
{
    let set = byte | (high & 0xc0);
    lemma_fields_by_value(byte);
    lemma_fields_by_value(set);
    assert(set % 2 == byte % 2 && (set / 32) % 2 == (byte / 32) % 2 && (set / 4) % 16 == (byte / 4)
        % 16 && (set / 4) % 8 == (byte / 4) % 8) by (bit_vector)
        requires
            set == byte | (high & 0xc0),
    ;
}

/// An encoded argument number with any of bits 6 and 7 set still decodes to
/// the same kind and number.
pub proof fn lemma_field_isolation(argument: ArgumentNumber, high: u8)
    ensures
        decode(encode(argument) | (high & 0xc0)) == decode(encode(argument)),
        fits(argument) ==> decode(encode(argument) | (high & 0xc0)) == argument,
{
    lemma_high_bits_ignored(encode(argument), high);
    lemma_decode_encode(argument);
}

} // verus!

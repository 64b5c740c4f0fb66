//! Bits and bit ranges of a byte, as numbers.
//!
//! Bit 0 is the least significant bit. The executable operations are those of
//! the `bitfield` crate on a `u8`; what they compute is stated here over the
//! arithmetic of the byte's value.

use vstd::arithmetic::power2::pow2;
use vstd::prelude::*;

verus! {

/// Whether bit `index` of `byte` is set.
pub open spec fn bit(byte: u8, index: nat) -> bool {
    (byte as nat / pow2(index)) % 2 == 1
}

/// The number spelled by bits `lsb ..= msb` of `byte`, bit `lsb` counting as
/// the unit.
pub open spec fn bits(byte: u8, msb: nat, lsb: nat) -> nat
    recommends
        lsb <= msb < 8,
{
    (byte as nat / pow2(lsb)) % pow2((msb - lsb + 1) as nat)
}

/// The byte that has the low `msb - lsb + 1` bits of `value` in bits
/// `lsb ..= msb` and the bits of `byte` everywhere else.
pub open spec fn with_bits(byte: u8, msb: nat, lsb: nat, value: u8) -> int
    recommends
        lsb <= msb < 8,
{
    byte - bits(byte, msb, lsb) * pow2(lsb) + (value as nat % pow2((msb - lsb + 1) as nat)) * pow2(
        lsb,
    )
}

/// The byte that has bit `index` set or cleared as `value` says and the bits
/// of `byte` everywhere else.
pub open spec fn with_bit(byte: u8, index: nat, value: bool) -> int
    recommends
        index < 8,
{
    with_bits(byte, index, index, if value { 1u8 } else { 0u8 })
}

/// Reads one bit with `bitfield::Bit::bit`, in its impl for `u8`.
///
/// Trusted: the call returns whether bit `index` is set. Positions past bit 7
/// are left out, since the shifts in the crate overflow there.
#[verifier::external_body]
pub(crate) fn get_bit(byte: u8, index: usize) -> (set: bool)
    requires
        index < 8,
    ensures
        set == bit(byte, index as nat),
{
    bitfield::Bit::bit(&byte, index)
}

/// Writes one bit with `bitfield::BitMut::set_bit`, in its impl for `u8`.
///
/// Trusted: the call sets or clears bit `index` and leaves the other bits as
/// they were. Positions past bit 7 are left out, as in [`get_bit`].
#[verifier::external_body]
pub(crate) fn set_bit(byte: &mut u8, index: usize, value: bool)
    requires
        index < 8,
    ensures
        *final(byte) == with_bit(*old(byte), index as nat, value),
{
    bitfield::BitMut::set_bit(byte, index, value)
}

/// Reads a range of bits with `bitfield::BitRange::bit_range`, in its impl
/// that reads a `u8` out of a `u8`.
///
/// Trusted: the call returns bits `lsb ..= msb`, moved down so that bit `lsb`
/// is the unit. Ranges given upside down or reaching past bit 7 are left out:
/// the crate asserts the order, and its shifts overflow past the byte.
#[verifier::external_body]
pub(crate) fn get_bit_range(byte: u8, msb: usize, lsb: usize) -> (value: u8)
    requires
        lsb <= msb < 8,
    ensures
        value == bits(byte, msb as nat, lsb as nat),
{
    bitfield::BitRange::bit_range(&byte, msb, lsb)
}

/// Writes a range of bits with `bitfield::BitRangeMut::set_bit_range`, in its
/// impl that writes a `u8` into a `u8`.
///
/// Trusted: the call stores the low `msb - lsb + 1` bits of `value` in bits
/// `lsb ..= msb`, drops the higher bits of `value`, and leaves the other bits
/// of the byte as they were. The same ranges are left out as in
/// [`get_bit_range`].
#[verifier::external_body]
pub(crate) fn set_bit_range(byte: &mut u8, msb: usize, lsb: usize, value: u8)
    requires
        lsb <= msb < 8,
    ensures
        *final(byte) == with_bits(*old(byte), msb as nat, lsb as nat, value),
{
    bitfield::BitRangeMut::set_bit_range(byte, msb, lsb, value)
}

} // verus!

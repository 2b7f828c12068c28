//! Packed binary-coded decimal: one decimal digit in each nibble of a byte.

use vstd::prelude::*;
use crate::error::{DateTimeError, Error, ErrorKind};

verus! {

/// The number a byte stands for when its high nibble counts tens and its low
/// nibble counts units.
pub open spec fn bcd_value(byte: u8) -> int {
    (byte >> 4) * 10 + (byte & 0x0F)
}

/// The byte whose high nibble is the tens digit of `value` and whose low
/// nibble is its units digit.
pub open spec fn bcd_byte(value: u8) -> u8 {
    ((value / 10) << 4) | (value % 10)
}

/// Both nibbles of `byte` are decimal digits.
pub open spec fn is_bcd(byte: u8) -> bool {
    (byte >> 4) <= 9 && (byte & 0x0F) <= 9
}

/// `rtc_hal::bcd::to_decimal` multiplies the high nibble by ten and adds the
/// low nibble, whatever the nibbles hold. The sum is at most 165.
pub assume_specification[ rtc_hal::bcd::to_decimal ](bcd: u8) -> (r: u8)
    ensures
        r == bcd_value(bcd),
;

/// `rtc_hal::bcd::from_decimal` puts the tens digit in the high nibble and
/// the units digit in the low one. It asserts that its argument is at most
/// 99, so larger values are kept away from it.
pub assume_specification[ rtc_hal::bcd::from_decimal ](decimal: u8) -> (r: u8)
    requires
        decimal <= 99,
    ensures
        r == bcd_byte(decimal),
;

/// Decodes one packed byte. A nibble above 9 is reported as a fault of the
/// date-time field named by `field`.
pub fn decode_bcd<E>(byte: u8, field: DateTimeError) -> (r: Result<u8, Error<E>>)
    ensures
        is_bcd(byte) ==> r == Ok::<u8, Error<E>>(bcd_value(byte) as u8),
        !is_bcd(byte) ==> r == Err::<u8, Error<E>>(Error::DateTime(field)),
        r matches Ok(v) ==> v <= 99,
        r matches Err(e) ==> e.spec_kind() == ErrorKind::InvalidDateTime,
{
    let tens = byte >> 4;
    let units = byte & 0x0F;
    if tens > 9 || units > 9 {
        return Err(Error::DateTime(field));
    }
    assert(tens * 10 + units <= 99);
    Ok(rtc_hal::bcd::to_decimal(byte))
}

/// Encodes a number below 100 as one packed byte. A larger number is
/// reported as a fault of the date-time field named by `field`.
pub fn encode_bcd<E>(value: u8, field: DateTimeError) -> (r: Result<u8, Error<E>>)
    ensures
        value <= 99 ==> r == Ok::<u8, Error<E>>(bcd_byte(value)),
        value > 99 ==> r == Err::<u8, Error<E>>(Error::DateTime(field)),
{
    if value > 99 {
        return Err(Error::DateTime(field));
    }
    Ok(rtc_hal::bcd::from_decimal(value))
}

/// Encoding a pair of decimal digits and decoding the byte gives the pair
/// back: the byte holds `tens` in its high nibble and `units` in its low
/// one, it is well formed, and its value is `tens * 10 + units`.
pub proof fn lemma_bcd_round_trip(tens: u8, units: u8)
    requires
        tens <= 9,
        units <= 9,
    ensures
        bcd_byte((tens * 10 + units) as u8) == (tens << 4) | units,
        bcd_byte((tens * 10 + units) as u8) >> 4 == tens,
        bcd_byte((tens * 10 + units) as u8) & 0x0F == units,
        is_bcd(bcd_byte((tens * 10 + units) as u8)),
        bcd_value(bcd_byte((tens * 10 + units) as u8)) == tens * 10 + units,
{
    let value: u8 = (tens * 10 + units) as u8;
    assert(value / 10 == tens && value % 10 == units);
    assert((((tens << 4) | units) >> 4) == tens && (((tens << 4) | units) & 0x0F) == units)
        by (bit_vector)
        requires
            tens <= 9,
            units <= 9,
    ;
}

/// Every number below 100 survives encoding and decoding.
pub proof fn lemma_bcd_value_of_byte(value: u8)
    requires
        value <= 99,
    ensures
        is_bcd(bcd_byte(value)),
        bcd_value(bcd_byte(value)) == value,
{
    lemma_bcd_round_trip(value / 10, value % 10);
}

/// Every well-formed byte survives decoding and encoding.
pub proof fn lemma_bcd_byte_of_value(byte: u8)
    requires
        is_bcd(byte),
    ensures
        bcd_value(byte) <= 99,
        bcd_byte(bcd_value(byte) as u8) == byte,
{
    let tens = byte >> 4;
    let units = byte & 0x0F;
    lemma_bcd_round_trip(tens, units);
    assert(((byte >> 4) << 4) | (byte & 0x0F) == byte) by (bit_vector);
}

} // verus!

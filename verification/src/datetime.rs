//! The time codec: seven packed register bytes on one side, a calendar value
//! on the other. The century flag sits in the top bit of the month byte.

use vstd::prelude::*;
use crate::bcd::{
    bcd_byte, bcd_value, decode_bcd, encode_bcd, is_bcd, lemma_bcd_byte_of_value,
    lemma_bcd_value_of_byte,
};
use crate::error::{DateTimeError, Error};

verus! {

/// Top bit of the month register: set when the year is in the second
/// century after the base century.
pub const CENTURY_BIT: u8 = 0b1000_0000;

/// A calendar date and time of day.
#[derive(Debug, Clone, Copy, PartialEq, Eq, Structural)]
pub struct DateTimeFields {
    pub year: u16,
    pub month: u8,
    pub day: u8,
    pub weekday: u8,
    pub hour: u8,
    pub minute: u8,
    pub second: u8,
}

/// The seven timekeeping registers, in address order.
#[derive(Debug, Clone, Copy, PartialEq, Eq, Structural)]
pub struct TimeRegisters {
    pub seconds: u8,
    pub minutes: u8,
    pub hours: u8,
    pub day: u8,
    pub date: u8,
    pub month: u8,
    pub year: u8,
}

/// Leap years of the Gregorian calendar.
pub open spec fn is_leap(year: u16) -> bool {
    year % 4 == 0 && (year % 100 != 0 || year % 400 == 0)
}

/// The number of days of `month` in `year`; 0 where `month` is no month.
pub open spec fn month_length(year: u16, month: u8) -> u8 {
    if month == 2 {
        if is_leap(year) {
            29
        } else {
            28
        }
    } else if month == 4 || month == 6 || month == 9 || month == 11 {
        30
    } else if 1 <= month <= 12 {
        31
    } else {
        0
    }
}

/// `rtc_hal::datetime::days_in_month` gives 31, 30, or for February 28 or
/// 29 by the Gregorian leap-year rule, and 0 for a month outside 1 to 12.
pub assume_specification[ rtc_hal::datetime::days_in_month ](year: u16, month: u8) -> (r: u8)
    ensures
        r == month_length(year, month),
;

/// The base centuries the driver can be configured with.
pub open spec fn base_century_ok(base_century: u8) -> bool {
    19 <= base_century <= 21
}

/// Accepts the base centuries 19, 20 and 21 and refuses every other.
pub fn check_base_century<E>(base_century: u8) -> (r: Result<(), Error<E>>)
    ensures
        base_century_ok(base_century) ==> r == Ok::<(), Error<E>>(()),
        !base_century_ok(base_century) ==> r == Err::<(), Error<E>>(Error::InvalidBaseCentury),
{
    if base_century < 19 || base_century > 21 {
        Err(Error::InvalidBaseCentury)
    } else {
        Ok(())
    }
}

/// The first reason, if any, for which `regs` decode to no calendar value
/// under `base_century`. Fields are examined in the order: configuration,
/// seconds, minutes, hours, weekday, month, year, day of month.
pub open spec fn decode_fault<E>(regs: TimeRegisters, base_century: u8) -> Option<Error<E>> {
    if !base_century_ok(base_century) {
        Some(Error::InvalidBaseCentury)
    } else if !is_bcd(regs.seconds) || bcd_value(regs.seconds) > 59 {
        Some(Error::DateTime(DateTimeError::InvalidSecond))
    } else if !is_bcd(regs.minutes) || bcd_value(regs.minutes) > 59 {
        Some(Error::DateTime(DateTimeError::InvalidMinute))
    } else if !is_bcd(regs.hours) || bcd_value(regs.hours) > 23 {
        Some(Error::DateTime(DateTimeError::InvalidHour))
    } else if !is_bcd(regs.day) || !(1 <= bcd_value(regs.day) <= 7) {
        Some(Error::DateTime(DateTimeError::InvalidWeekday))
    } else if !is_bcd(regs.month & !CENTURY_BIT) || !(1 <= bcd_value(regs.month & !CENTURY_BIT)
        <= 12) {
        Some(Error::DateTime(DateTimeError::InvalidMonth))
    } else if !is_bcd(regs.year) {
        Some(Error::DateTime(DateTimeError::InvalidYear))
    } else if !is_bcd(regs.date) || !(1 <= bcd_value(regs.date) <= month_length(
        decoded_year(regs, base_century),
        bcd_value(regs.month & !CENTURY_BIT) as u8,
    )) {
        Some(Error::DateTime(DateTimeError::InvalidDay))
    } else {
        None
    }
}

/// The full year that `regs` hold: the base century, one more century when
/// the century flag is set, and the two digits of the year register.
pub open spec fn decoded_year(regs: TimeRegisters, base_century: u8) -> u16 {
    (base_century * 100 + (if regs.month & CENTURY_BIT != 0 {
        100int
    } else {
        0int
    }) + bcd_value(regs.year)) as u16
}

/// The calendar value that well-formed `regs` hold.
pub open spec fn decoded(regs: TimeRegisters, base_century: u8) -> DateTimeFields {
    DateTimeFields {
        year: decoded_year(regs, base_century),
        month: bcd_value(regs.month & !CENTURY_BIT) as u8,
        day: bcd_value(regs.date) as u8,
        weekday: bcd_value(regs.day) as u8,
        hour: bcd_value(regs.hours) as u8,
        minute: bcd_value(regs.minutes) as u8,
        second: bcd_value(regs.seconds) as u8,
    }
}

/// The first reason, if any, for which `dt` has no register form under
/// `base_century`. Fields are examined in the order: configuration, year,
/// month, day of month, hour, minute, second, weekday.
pub open spec fn encode_fault<E>(dt: DateTimeFields, base_century: u8) -> Option<Error<E>> {
    if !base_century_ok(base_century) {
        Some(Error::InvalidBaseCentury)
    } else if !(base_century * 100 <= dt.year <= base_century * 100 + 199) {
        Some(Error::DateTime(DateTimeError::InvalidYear))
    } else if !(1 <= dt.month <= 12) {
        Some(Error::DateTime(DateTimeError::InvalidMonth))
    } else if !(1 <= dt.day <= month_length(dt.year, dt.month)) {
        Some(Error::DateTime(DateTimeError::InvalidDay))
    } else if dt.hour > 23 {
        Some(Error::DateTime(DateTimeError::InvalidHour))
    } else if dt.minute > 59 {
        Some(Error::DateTime(DateTimeError::InvalidMinute))
    } else if dt.second > 59 {
        Some(Error::DateTime(DateTimeError::InvalidSecond))
    } else if !(1 <= dt.weekday <= 7) {
        Some(Error::DateTime(DateTimeError::InvalidWeekday))
    } else {
        None
    }
}

/// The register form of a valid `dt`.
pub open spec fn encoded(dt: DateTimeFields, base_century: u8) -> TimeRegisters {
    let offset = dt.year - base_century * 100;
    TimeRegisters {
        seconds: bcd_byte(dt.second),
        minutes: bcd_byte(dt.minute),
        hours: bcd_byte(dt.hour),
        day: bcd_byte(dt.weekday),
        date: bcd_byte(dt.day),
        month: if offset >= 100 {
            bcd_byte(dt.month) | CENTURY_BIT
        } else {
            bcd_byte(dt.month)
        },
        year: bcd_byte((offset % 100) as u8),
    }
}

/// Decodes the timekeeping registers into a calendar value, or says which
/// field is malformed or out of range.
pub fn decode_datetime<E>(regs: &TimeRegisters, base_century: u8) -> (r: Result<
    DateTimeFields,
    Error<E>,
>)
    ensures
        match decode_fault::<E>(*regs, base_century) {
            Some(e) => r == Err::<DateTimeFields, Error<E>>(e),
            None => r == Ok::<DateTimeFields, Error<E>>(decoded(*regs, base_century)),
        },
{
    check_base_century::<E>(base_century)?;
    let second = decode_bcd::<E>(regs.seconds, DateTimeError::InvalidSecond)?;
    if second > 59 {
        return Err(Error::DateTime(DateTimeError::InvalidSecond));
    }
    let minute = decode_bcd::<E>(regs.minutes, DateTimeError::InvalidMinute)?;
    if minute > 59 {
        return Err(Error::DateTime(DateTimeError::InvalidMinute));
    }
    let hour = decode_bcd::<E>(regs.hours, DateTimeError::InvalidHour)?;
    if hour > 23 {
        return Err(Error::DateTime(DateTimeError::InvalidHour));
    }
    let weekday = decode_bcd::<E>(regs.day, DateTimeError::InvalidWeekday)?;
    if weekday < 1 || weekday > 7 {
        return Err(Error::DateTime(DateTimeError::InvalidWeekday));
    }
    let month = decode_bcd::<E>(regs.month & !CENTURY_BIT, DateTimeError::InvalidMonth)?;
    if month < 1 || month > 12 {
        return Err(Error::DateTime(DateTimeError::InvalidMonth));
    }
    let two_digits = decode_bcd::<E>(regs.year, DateTimeError::InvalidYear)?;
    let century: u16 = if regs.month & CENTURY_BIT != 0 {
        100
    } else {
        0
    };
    let year: u16 = base_century as u16 * 100 + century + two_digits as u16;
    let day = decode_bcd::<E>(regs.date, DateTimeError::InvalidDay)?;
    if day < 1 || day > rtc_hal::datetime::days_in_month(year, month) {
        return Err(Error::DateTime(DateTimeError::InvalidDay));
    }
    Ok(DateTimeFields { year, month, day, weekday, hour, minute, second })
}

/// Encodes a calendar value into the timekeeping registers, or says which
/// field is out of range.
pub fn encode_datetime<E>(dt: &DateTimeFields, base_century: u8) -> (r: Result<
    TimeRegisters,
    Error<E>,
>)
    ensures
        match encode_fault::<E>(*dt, base_century) {
            Some(e) => r == Err::<TimeRegisters, Error<E>>(e),
            None => r == Ok::<TimeRegisters, Error<E>>(encoded(*dt, base_century)),
        },
{
    check_base_century::<E>(base_century)?;
    let first_year: u16 = base_century as u16 * 100;
    if dt.year < first_year || dt.year > first_year + 199 {
        return Err(Error::DateTime(DateTimeError::InvalidYear));
    }
    if dt.month < 1 || dt.month > 12 {
        return Err(Error::DateTime(DateTimeError::InvalidMonth));
    }
    if dt.day < 1 || dt.day > rtc_hal::datetime::days_in_month(dt.year, dt.month) {
        return Err(Error::DateTime(DateTimeError::InvalidDay));
    }
    if dt.hour > 23 {
        return Err(Error::DateTime(DateTimeError::InvalidHour));
    }
    if dt.minute > 59 {
        return Err(Error::DateTime(DateTimeError::InvalidMinute));
    }
    if dt.second > 59 {
        return Err(Error::DateTime(DateTimeError::InvalidSecond));
    }
    if dt.weekday < 1 || dt.weekday > 7 {
        return Err(Error::DateTime(DateTimeError::InvalidWeekday));
    }
    let offset: u16 = dt.year - first_year;
    let two_digits: u8 = (offset % 100) as u8;
    let month_digits = encode_bcd::<E>(dt.month, DateTimeError::InvalidMonth)?;
    let month = if offset >= 100 {
        month_digits | CENTURY_BIT
    } else {
        month_digits
    };
    Ok(
        TimeRegisters {
            seconds: encode_bcd::<E>(dt.second, DateTimeError::InvalidSecond)?,
            minutes: encode_bcd::<E>(dt.minute, DateTimeError::InvalidMinute)?,
            hours: encode_bcd::<E>(dt.hour, DateTimeError::InvalidHour)?,
            day: encode_bcd::<E>(dt.weekday, DateTimeError::InvalidWeekday)?,
            date: encode_bcd::<E>(dt.day, DateTimeError::InvalidDay)?,
            month,
            year: encode_bcd::<E>(two_digits, DateTimeError::InvalidYear)?,
        },
    )
}

impl DateTimeFields {
    /// Every field is in its calendar range.
    pub open spec fn well_formed(self) -> bool {
        &&& 1 <= self.month <= 12
        &&& 1 <= self.day <= month_length(self.year, self.month)
        &&& 1 <= self.weekday <= 7
        &&& self.hour <= 23
        &&& self.minute <= 59
        &&& self.second <= 59
    }

    /// The year lies in the two centuries the device can count from
    /// `base_century`.
    pub open spec fn in_window(self, base_century: u8) -> bool {
        base_century * 100 <= self.year <= base_century * 100 + 199
    }
}

/// A calendar value has a register form exactly when the base century is
/// one of the three, the year lies in its window and every field is in
/// range.
pub proof fn lemma_encodable<E>(dt: DateTimeFields, base_century: u8)
    ensures
        encode_fault::<E>(dt, base_century) is None <==> base_century_ok(base_century)
            && dt.in_window(base_century) && dt.well_formed(),
{
}

/// Whatever registers decode to is a calendar value with every field in
/// range and the year in the window of the base century.
pub proof fn lemma_decoded_well_formed<E>(regs: TimeRegisters, base_century: u8)
    requires
        decode_fault::<E>(regs, base_century) is None,
    ensures
        decoded(regs, base_century).well_formed(),
        decoded(regs, base_century).in_window(base_century),
{
    lemma_decode_then_encode::<E>(regs, base_century);
    lemma_encodable::<E>(decoded(regs, base_century), base_century);
}

/// Encoding loses nothing: the registers of a valid calendar value are well
/// formed and decode to that value.
pub proof fn lemma_encode_then_decode<E>(dt: DateTimeFields, base_century: u8)
    requires
        encode_fault::<E>(dt, base_century) is None,
    ensures
        decode_fault::<E>(encoded(dt, base_century), base_century) is None,
        decoded(encoded(dt, base_century), base_century) == dt,
{
    let offset = dt.year - base_century * 100;
    let two_digits = (offset % 100) as u8;
    let m = bcd_byte(dt.month);
    lemma_bcd_value_of_byte(dt.second);
    lemma_bcd_value_of_byte(dt.minute);
    lemma_bcd_value_of_byte(dt.hour);
    lemma_bcd_value_of_byte(dt.weekday);
    lemma_bcd_value_of_byte(dt.day);
    lemma_bcd_value_of_byte(dt.month);
    lemma_bcd_value_of_byte(two_digits);
    let month = dt.month;
    assert(m & 0x80u8 == 0 && m & !0x80u8 == m && (m | 0x80u8) & !0x80u8 == m && (m | 0x80u8)
        & 0x80u8 != 0) by (bit_vector)
        requires
            m == ((month / 10) << 4) | (month % 10),
            month <= 12,
    ;
}

/// Decoding loses nothing: the calendar value of well-formed registers is
/// valid and encodes to the same registers.
pub proof fn lemma_decode_then_encode<E>(regs: TimeRegisters, base_century: u8)
    requires
        decode_fault::<E>(regs, base_century) is None,
    ensures
        encode_fault::<E>(decoded(regs, base_century), base_century) is None,
        encoded(decoded(regs, base_century), base_century) == regs,
{
    let dt = decoded(regs, base_century);
    let m = regs.month & !CENTURY_BIT;
    lemma_bcd_byte_of_value(regs.seconds);
    lemma_bcd_byte_of_value(regs.minutes);
    lemma_bcd_byte_of_value(regs.hours);
    lemma_bcd_byte_of_value(regs.day);
    lemma_bcd_byte_of_value(regs.date);
    lemma_bcd_byte_of_value(m);
    lemma_bcd_byte_of_value(regs.year);
    let whole = regs.month;
    assert(if whole & 0x80u8 != 0 {
        (whole & !0x80u8) | 0x80u8 == whole
    } else {
        whole & !0x80u8 == whole
    }) by (bit_vector);
    let two_digits = bcd_value(regs.year);
    let century = if whole & CENTURY_BIT != 0 {
        100int
    } else {
        0int
    };
    assert(dt.year == base_century * 100 + century + two_digits);
    let offset = dt.year - base_century * 100;
    assert(offset == century + two_digits);
    assert(offset % 100 == two_digits);
    assert(offset >= 100 <==> whole & CENTURY_BIT != 0);
    assert(bcd_byte(dt.month) == m);
    assert(encoded(dt, base_century).month == regs.month);
}

} // verus!

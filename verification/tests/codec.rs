use ds3231_rtc::bcd::{decode_bcd, encode_bcd};
use ds3231_rtc::datetime::{
    check_base_century, decode_datetime, encode_datetime, DateTimeFields, TimeRegisters,
};
use ds3231_rtc::error::{DateTimeError, Error};

fn sample_fields() -> DateTimeFields {
    DateTimeFields { year: 2024, month: 2, day: 29, weekday: 5, hour: 23, minute: 59, second: 58 }
}

fn sample_registers() -> TimeRegisters {
    TimeRegisters {
        seconds: 0x58,
        minutes: 0x59,
        hours: 0x23,
        day: 0x05,
        date: 0x29,
        month: 0x02,
        year: 0x24,
    }
}

#[test]
fn test_decode_bcd_values() {
    assert_eq!(decode_bcd::<()>(0x00, DateTimeError::InvalidSecond), Ok(0));
    assert_eq!(decode_bcd::<()>(0x09, DateTimeError::InvalidSecond), Ok(9));
    assert_eq!(decode_bcd::<()>(0x10, DateTimeError::InvalidSecond), Ok(10));
    assert_eq!(decode_bcd::<()>(0x59, DateTimeError::InvalidSecond), Ok(59));
    assert_eq!(decode_bcd::<()>(0x99, DateTimeError::InvalidSecond), Ok(99));
}

#[test]
fn test_decode_bcd_rejects_digit_above_nine() {
    assert_eq!(
        decode_bcd::<()>(0x5A, DateTimeError::InvalidSecond),
        Err(Error::DateTime(DateTimeError::InvalidSecond))
    );
    assert_eq!(
        decode_bcd::<()>(0xA5, DateTimeError::InvalidMinute),
        Err(Error::DateTime(DateTimeError::InvalidMinute))
    );
    assert_eq!(
        decode_bcd::<()>(0xFF, DateTimeError::InvalidHour),
        Err(Error::DateTime(DateTimeError::InvalidHour))
    );
}

#[test]
fn test_encode_bcd_values() {
    assert_eq!(encode_bcd::<()>(0, DateTimeError::InvalidSecond), Ok(0x00));
    assert_eq!(encode_bcd::<()>(9, DateTimeError::InvalidSecond), Ok(0x09));
    assert_eq!(encode_bcd::<()>(10, DateTimeError::InvalidSecond), Ok(0x10));
    assert_eq!(encode_bcd::<()>(45, DateTimeError::InvalidSecond), Ok(0x45));
    assert_eq!(encode_bcd::<()>(99, DateTimeError::InvalidSecond), Ok(0x99));
}

#[test]
fn test_encode_bcd_rejects_three_digits() {
    assert_eq!(
        encode_bcd::<()>(100, DateTimeError::InvalidYear),
        Err(Error::DateTime(DateTimeError::InvalidYear))
    );
    assert_eq!(
        encode_bcd::<()>(255, DateTimeError::InvalidDay),
        Err(Error::DateTime(DateTimeError::InvalidDay))
    );
}

#[test]
fn test_bcd_round_trip_all_digit_pairs() {
    for tens in 0u8..=9 {
        for units in 0u8..=9 {
            let byte = encode_bcd::<()>(tens * 10 + units, DateTimeError::InvalidSecond).unwrap();
            assert_eq!(byte, (tens << 4) | units);
            assert_eq!(decode_bcd::<()>(byte, DateTimeError::InvalidSecond), Ok(tens * 10 + units));
        }
    }
}

#[test]
fn test_decode_datetime_sample() {
    assert_eq!(decode_datetime::<()>(&sample_registers(), 20), Ok(sample_fields()));
}

#[test]
fn test_encode_datetime_sample() {
    assert_eq!(encode_datetime::<()>(&sample_fields(), 20), Ok(sample_registers()));
}

#[test]
fn test_century_bit_adds_a_century() {
    let mut regs = sample_registers();
    regs.month = 0x82;
    regs.date = 0x28;
    let decoded = decode_datetime::<()>(&regs, 20).unwrap();
    assert_eq!(decoded.year, 2124);
    assert_eq!(decoded.month, 2);
    assert_eq!(encode_datetime::<()>(&decoded, 20), Ok(regs));
}

#[test]
fn test_century_bit_with_base_nineteen() {
    let fields =
        DateTimeFields { year: 2001, month: 12, day: 31, weekday: 2, hour: 0, minute: 0, second: 0 };
    let regs = encode_datetime::<()>(&fields, 19).unwrap();
    assert_eq!(regs.month, 0x92);
    assert_eq!(regs.year, 0x01);
    assert_eq!(regs.date, 0x31);
    assert_eq!(decode_datetime::<()>(&regs, 19), Ok(fields));
}

#[test]
fn test_invalid_base_century() {
    assert_eq!(decode_datetime::<()>(&sample_registers(), 18), Err(Error::InvalidBaseCentury));
    assert_eq!(decode_datetime::<()>(&sample_registers(), 22), Err(Error::InvalidBaseCentury));
    assert_eq!(encode_datetime::<()>(&sample_fields(), 18), Err(Error::InvalidBaseCentury));
    assert_eq!(encode_datetime::<()>(&sample_fields(), 22), Err(Error::InvalidBaseCentury));
}

#[test]
fn test_decode_datetime_faults() {
    let mut regs = sample_registers();
    regs.seconds = 0x60;
    assert_eq!(
        decode_datetime::<()>(&regs, 20),
        Err(Error::DateTime(DateTimeError::InvalidSecond))
    );
    let mut regs = sample_registers();
    regs.minutes = 0x6A;
    assert_eq!(
        decode_datetime::<()>(&regs, 20),
        Err(Error::DateTime(DateTimeError::InvalidMinute))
    );
    let mut regs = sample_registers();
    regs.hours = 0x24;
    assert_eq!(decode_datetime::<()>(&regs, 20), Err(Error::DateTime(DateTimeError::InvalidHour)));
    let mut regs = sample_registers();
    regs.day = 0x08;
    assert_eq!(
        decode_datetime::<()>(&regs, 20),
        Err(Error::DateTime(DateTimeError::InvalidWeekday))
    );
    let mut regs = sample_registers();
    regs.month = 0x13;
    assert_eq!(decode_datetime::<()>(&regs, 20), Err(Error::DateTime(DateTimeError::InvalidMonth)));
    let mut regs = sample_registers();
    regs.year = 0xA0;
    assert_eq!(decode_datetime::<()>(&regs, 20), Err(Error::DateTime(DateTimeError::InvalidYear)));
    let mut regs = sample_registers();
    regs.date = 0x00;
    assert_eq!(decode_datetime::<()>(&regs, 20), Err(Error::DateTime(DateTimeError::InvalidDay)));
}

#[test]
fn test_leap_day_only_in_leap_years() {
    let mut regs = sample_registers();
    regs.year = 0x23;
    assert_eq!(decode_datetime::<()>(&regs, 20), Err(Error::DateTime(DateTimeError::InvalidDay)));
    // 2100 is no leap year, 2000 is.
    let mut fields = sample_fields();
    fields.year = 2100;
    assert_eq!(encode_datetime::<()>(&fields, 20), Err(Error::DateTime(DateTimeError::InvalidDay)));
    fields.year = 2000;
    assert!(encode_datetime::<()>(&fields, 20).is_ok());
}

#[test]
fn test_month_lengths() {
    let mut fields = sample_fields();
    fields.month = 4;
    fields.day = 31;
    assert_eq!(encode_datetime::<()>(&fields, 20), Err(Error::DateTime(DateTimeError::InvalidDay)));
    fields.day = 30;
    assert!(encode_datetime::<()>(&fields, 20).is_ok());
    fields.month = 12;
    fields.day = 31;
    assert!(encode_datetime::<()>(&fields, 20).is_ok());
}

#[test]
fn test_encode_datetime_faults() {
    let mut fields = sample_fields();
    fields.year = 1999;
    assert_eq!(encode_datetime::<()>(&fields, 20), Err(Error::DateTime(DateTimeError::InvalidYear)));
    fields.year = 2200;
    assert_eq!(encode_datetime::<()>(&fields, 20), Err(Error::DateTime(DateTimeError::InvalidYear)));
    let mut fields = sample_fields();
    fields.month = 0;
    assert_eq!(
        encode_datetime::<()>(&fields, 20),
        Err(Error::DateTime(DateTimeError::InvalidMonth))
    );
    let mut fields = sample_fields();
    fields.hour = 24;
    assert_eq!(encode_datetime::<()>(&fields, 20), Err(Error::DateTime(DateTimeError::InvalidHour)));
    let mut fields = sample_fields();
    fields.minute = 60;
    assert_eq!(
        encode_datetime::<()>(&fields, 20),
        Err(Error::DateTime(DateTimeError::InvalidMinute))
    );
    let mut fields = sample_fields();
    fields.second = 60;
    assert_eq!(
        encode_datetime::<()>(&fields, 20),
        Err(Error::DateTime(DateTimeError::InvalidSecond))
    );
    let mut fields = sample_fields();
    fields.weekday = 0;
    assert_eq!(
        encode_datetime::<()>(&fields, 20),
        Err(Error::DateTime(DateTimeError::InvalidWeekday))
    );
}

#[test]
fn test_check_base_century() {
    assert_eq!(check_base_century::<()>(19), Ok(()));
    assert_eq!(check_base_century::<()>(20), Ok(()));
    assert_eq!(check_base_century::<()>(21), Ok(()));
    assert_eq!(check_base_century::<()>(18), Err(Error::InvalidBaseCentury));
    assert_eq!(check_base_century::<()>(22), Err(Error::InvalidBaseCentury));
    assert_eq!(check_base_century::<()>(0), Err(Error::InvalidBaseCentury));
}

#[test]
fn test_datetime_round_trip_over_a_window() {
    for year in [1900u16, 1999, 2000, 2099] {
        for month in 1u8..=12 {
            let fields =
                DateTimeFields { year, month, day: 28, weekday: 7, hour: 12, minute: 34, second: 56 };
            let regs = encode_datetime::<()>(&fields, 19).unwrap();
            assert_eq!(regs.month & 0x80 != 0, year >= 2000);
            assert_eq!(decode_datetime::<()>(&regs, 19), Ok(fields));
        }
    }
}

#[test]
fn test_invalid_digit_is_an_invalid_datetime() {
    let e = decode_bcd::<()>(0x1F, DateTimeError::InvalidDay).unwrap_err();
    assert_eq!(e.kind(), ds3231_rtc::error::ErrorKind::InvalidDateTime);
}

use ds3231_rtc::error::{DateTimeError, Error, ErrorKind};

#[derive(Debug, PartialEq, Eq)]
struct DummyI2cError(u8);

#[test]
fn test_from_i2c_error() {
    let e = Error::from(DummyI2cError(42));
    assert_eq!(e, Error::I2c(DummyI2cError(42)));
}

#[test]
fn test_error_kind_mappings() {
    // I2c variant
    let e: Error<&str> = Error::I2c("oops");
    assert_eq!(e.kind(), ErrorKind::Bus);

    // InvalidAddress
    let e: Error<&str> = Error::InvalidAddress;
    assert_eq!(e.kind(), ErrorKind::InvalidAddress);

    // DateTime
    let e: Error<&str> = Error::DateTime(DateTimeError::InvalidDay);
    assert_eq!(e.kind(), ErrorKind::InvalidDateTime);

    // UnsupportedSqwFrequency
    let e: Error<&str> = Error::UnsupportedSqwFrequency;
    assert_eq!(e.kind(), ErrorKind::UnsupportedSqwFrequency);

    // InvalidBaseCentury
    let e: Error<&str> = Error::InvalidBaseCentury;
    assert_eq!(e.kind(), ErrorKind::InvalidBaseCentury);
}

#[test]
fn test_error_kind_ignores_the_wrapped_bus_error() {
    let a: Error<u8> = Error::I2c(1);
    let b: Error<u8> = Error::I2c(200);
    assert_eq!(a.kind(), b.kind());
    assert_ne!(a, b);
}

#[test]
fn test_every_datetime_fault_is_invalid_datetime() {
    let faults = vec![
        DateTimeError::InvalidMonth,
        DateTimeError::InvalidDay,
        DateTimeError::InvalidHour,
        DateTimeError::InvalidMinute,
        DateTimeError::InvalidSecond,
        DateTimeError::InvalidWeekday,
        DateTimeError::InvalidYear,
    ];
    for fault in faults {
        let e: Error<()> = Error::DateTime(fault);
        assert_eq!(e.kind(), ErrorKind::InvalidDateTime);
    }
}

#[test]
fn test_base_century_failure_is_a_kind_of_its_own() {
    let e: Error<()> = Error::InvalidBaseCentury;
    assert_ne!(e.kind(), ErrorKind::InvalidDateTime);
    let d: Error<()> = Error::DateTime(DateTimeError::InvalidYear);
    assert_ne!(e.kind(), d.kind());
}

//! The failures the driver can report, and their classification.

use vstd::prelude::*;

verus! {

/// Which field of a date and time was out of range.
#[derive(Debug, Clone, Copy, PartialEq, Eq, Structural)]
pub enum DateTimeError {
    InvalidMonth,
    InvalidDay,
    InvalidHour,
    InvalidMinute,
    InvalidSecond,
    InvalidWeekday,
    InvalidYear,
}

/// Coarse classification of a failure, independent of the bus in use.
#[derive(Debug, Clone, Copy, PartialEq, Eq, Structural)]
pub enum ErrorKind {
    Bus,
    InvalidDateTime,
    UnsupportedSqwFrequency,
    InvalidAddress,
    InvalidBaseCentury,
}

/// A failure of a driver operation. `I2cError` is the failure type of the
/// bus the driver is used with; it is carried through untouched.
#[derive(Debug, Clone, Copy, PartialEq, Eq)]
pub enum Error<I2cError> {
    /// The bus reported a failure.
    I2c(I2cError),
    /// A register address outside the device's range.
    InvalidAddress,
    /// A square-wave frequency the output pin cannot produce.
    UnsupportedSqwFrequency,
    /// A date or time field out of range.
    DateTime(DateTimeError),
    /// A base century other than 19, 20 or 21.
    InvalidBaseCentury,
}

impl<I2cError> Error<I2cError> {
    /// The classification of this failure, as a mathematical value.
    pub open spec fn spec_kind(&self) -> ErrorKind {
        match self {
            Error::I2c(_) => ErrorKind::Bus,
            Error::InvalidAddress => ErrorKind::InvalidAddress,
            Error::DateTime(_) => ErrorKind::InvalidDateTime,
            Error::UnsupportedSqwFrequency => ErrorKind::UnsupportedSqwFrequency,
            Error::InvalidBaseCentury => ErrorKind::InvalidBaseCentury,
        }
    }

    /// The classification of this failure.
    pub fn kind(&self) -> (k: ErrorKind)
        ensures
            k == self.spec_kind(),
    {
        match self {
            Error::I2c(_) => ErrorKind::Bus,
            Error::InvalidAddress => ErrorKind::InvalidAddress,
            Error::DateTime(_) => ErrorKind::InvalidDateTime,
            Error::UnsupportedSqwFrequency => ErrorKind::UnsupportedSqwFrequency,
            Error::InvalidBaseCentury => ErrorKind::InvalidBaseCentury,
        }
    }
}

impl<I2cError> From<I2cError> for Error<I2cError> {
    /// Wraps a bus failure.
    fn from(value: I2cError) -> (e: Self) {
        Error::I2c(value)
    }
}

impl<I2cError> vstd::std_specs::convert::FromSpecImpl<I2cError> for Error<I2cError> {
    open spec fn obeys_from_spec() -> bool {
        true
    }

    open spec fn from_spec(value: I2cError) -> Self {
        Error::I2c(value)
    }
}

} // verus!

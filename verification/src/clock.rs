//! Reading and setting the clock: the seven timekeeping registers, one
//! transaction each in address order, around the time codec.

use vstd::prelude::*;
use crate::bus::{Exchange, RegisterBus};
use crate::datetime::{
    base_century_ok, check_base_century, decode_datetime, decode_fault, decoded, encode_datetime,
    encode_fault, encoded, DateTimeFields, TimeRegisters,
};
use crate::ds3231::Ds3231;
use crate::error::Error;
use crate::registers::{Register, DS3231_ADDR};

verus! {

/// The byte that the read at position `at` of `log` brought; 0 where that
/// exchange is no successful read.
pub open spec fn byte_read<E>(log: Seq<Exchange<E>>, at: int) -> u8 {
    match log[at] {
        Exchange::Read { answer: Ok(v), .. } => v,
        _ => 0,
    }
}

/// The failure, if any, that the exchange at position `at` of `log` ended in.
pub open spec fn failure_at<E>(log: Seq<Exchange<E>>, at: int) -> Option<E> {
    match log[at] {
        Exchange::Read { answer: Err(e), .. } => Some(e),
        Exchange::Write { ack: Err(e), .. } => Some(e),
        _ => None,
    }
}

/// The exchange at position `at` of `log` is a read of the register at
/// address `register` of the device.
pub open spec fn is_read_of<E>(log: Seq<Exchange<E>>, at: int, register: int) -> bool {
    log[at] matches Exchange::Read { device, register: r, .. } && device == DS3231_ADDR && r
        == register
}

/// The exchange at position `at` of `log` is a write of `value` to the
/// register at address `register` of the device.
pub open spec fn is_write_of<E>(log: Seq<Exchange<E>>, at: int, register: int, value: u8) -> bool {
    log[at] matches Exchange::Write { device, register: r, value: v, .. } && device
        == DS3231_ADDR && r == register && v == value
}

/// The timekeeping registers as the seven reads from position `at` of `log`
/// brought them.
pub open spec fn registers_read<E>(log: Seq<Exchange<E>>, at: int) -> TimeRegisters {
    TimeRegisters {
        seconds: byte_read(log, at),
        minutes: byte_read(log, at + 1),
        hours: byte_read(log, at + 2),
        day: byte_read(log, at + 3),
        date: byte_read(log, at + 4),
        month: byte_read(log, at + 5),
        year: byte_read(log, at + 6),
    }
}

/// The byte of `regs` that belongs at register address `register`.
pub open spec fn register_byte(regs: TimeRegisters, register: int) -> u8 {
    if register == 0 {
        regs.seconds
    } else if register == 1 {
        regs.minutes
    } else if register == 2 {
        regs.hours
    } else if register == 3 {
        regs.day
    } else if register == 4 {
        regs.date
    } else if register == 5 {
        regs.month
    } else {
        regs.year
    }
}

/// What decoding `regs` gives: the first fault, or the calendar value.
pub open spec fn decode_result<E>(regs: TimeRegisters, base_century: u8) -> Result<
    DateTimeFields,
    Error<E>,
> {
    match decode_fault::<E>(regs, base_century) {
        Some(e) => Err(e),
        None => Ok(decoded(regs, base_century)),
    }
}

/// `after` extends `before` by one reading of the clock that ended in
/// `result`: reads of the registers 0, 1, 2, .. in this order, up to the
/// first that fails, whose failure is the result, or else all seven, whose
/// bytes decode to the result.
pub open spec fn time_read<E>(
    before: Seq<Exchange<E>>,
    after: Seq<Exchange<E>>,
    result: Result<DateTimeFields, Error<E>>,
    base_century: u8,
) -> bool {
    let n = before.len() as int;
    let k = after.len() - n;
    &&& 1 <= k <= 7
    &&& after.subrange(0, n) == before
    &&& forall|i: int| 0 <= i < k ==> #[trigger] is_read_of(after, n + i, i)
    &&& forall|i: int| 0 <= i < k - 1 ==> #[trigger] failure_at(after, n + i) is None
    &&& match failure_at(after, n + k - 1) {
        Some(e) => result == Err::<DateTimeFields, Error<E>>(Error::I2c(e)),
        None => k == 7 && result == decode_result::<E>(registers_read(after, n), base_century),
    }
}

/// `after` extends `before` by one setting of the clock to `regs` that
/// ended in `result`: writes of the registers 0, 1, 2, .. in this order,
/// each with its byte of `regs`, up to the first that fails, whose failure
/// is the result, or else all seven.
pub open spec fn time_written<E>(
    before: Seq<Exchange<E>>,
    after: Seq<Exchange<E>>,
    result: Result<(), Error<E>>,
    regs: TimeRegisters,
) -> bool {
    let n = before.len() as int;
    let k = after.len() - n;
    &&& 1 <= k <= 7
    &&& after.subrange(0, n) == before
    &&& forall|i: int| 0 <= i < k ==> #[trigger] is_write_of(after, n + i, i, register_byte(regs, i))
    &&& forall|i: int| 0 <= i < k - 1 ==> #[trigger] failure_at(after, n + i) is None
    &&& match failure_at(after, n + k - 1) {
        Some(e) => result == Err::<(), Error<E>>(Error::I2c(e)),
        None => k == 7 && result == Ok::<(), Error<E>>(()),
    }
}

impl<B: RegisterBus> Ds3231<B> {
    /// Reads the clock. A base century other than 19, 20 or 21 is refused
    /// before the bus is used; a bus failure ends the reading at once.
    pub fn read_time(&mut self, base_century: u8) -> (r: Result<DateTimeFields, Error<B::Error>>)
        ensures
            !base_century_ok(base_century) ==> r == Err::<DateTimeFields, Error<B::Error>>(
                Error::InvalidBaseCentury,
            ) && final(self).sent() == old(self).sent(),
            base_century_ok(base_century) ==> time_read(
                old(self).sent(),
                final(self).sent(),
                r,
                base_century,
            ),
    {
        let ghost before = self.sent();
        let ghost n = before.len() as int;
        check_base_century::<B::Error>(base_century)?;
        let seconds = match self.read_register(Register::Seconds) {
            Ok(v) => v,
            Err(e) => {
                assert(self.sent().subrange(0, n) =~= before);
                return Err(e);
            },
        };
        let minutes = match self.read_register(Register::Minutes) {
            Ok(v) => v,
            Err(e) => {
                assert(self.sent().subrange(0, n) =~= before);
                return Err(e);
            },
        };
        let hours = match self.read_register(Register::Hours) {
            Ok(v) => v,
            Err(e) => {
                assert(self.sent().subrange(0, n) =~= before);
                return Err(e);
            },
        };
        let day = match self.read_register(Register::Day) {
            Ok(v) => v,
            Err(e) => {
                assert(self.sent().subrange(0, n) =~= before);
                return Err(e);
            },
        };
        let date = match self.read_register(Register::Date) {
            Ok(v) => v,
            Err(e) => {
                assert(self.sent().subrange(0, n) =~= before);
                return Err(e);
            },
        };
        let month = match self.read_register(Register::Month) {
            Ok(v) => v,
            Err(e) => {
                assert(self.sent().subrange(0, n) =~= before);
                return Err(e);
            },
        };
        let year = match self.read_register(Register::Year) {
            Ok(v) => v,
            Err(e) => {
                assert(self.sent().subrange(0, n) =~= before);
                return Err(e);
            },
        };
        assert(self.sent().subrange(0, n) =~= before);
        let regs = TimeRegisters { seconds, minutes, hours, day, date, month, year };
        decode_datetime::<B::Error>(&regs, base_century)
    }

    /// Sets the clock. A value with no register form is refused before the
    /// bus is used; a bus failure ends the writing at once, with the
    /// registers before it already written.
    pub fn write_time(&mut self, dt: &DateTimeFields, base_century: u8) -> (r: Result<
        (),
        Error<B::Error>,
    >)
        ensures
            match encode_fault::<B::Error>(*dt, base_century) {
                Some(e) => r == Err::<(), Error<B::Error>>(e) && final(self).sent() == old(
                    self,
                ).sent(),
                None => time_written(
                    old(self).sent(),
                    final(self).sent(),
                    r,
                    encoded(*dt, base_century),
                ),
            },
    {
        let ghost before = self.sent();
        let ghost n = before.len() as int;
        let regs = encode_datetime::<B::Error>(dt, base_century)?;
        match self.write_register(Register::Seconds, regs.seconds) {
            Ok(()) => {},
            Err(e) => {
                assert(self.sent().subrange(0, n) =~= before);
                return Err(e);
            },
        }
        match self.write_register(Register::Minutes, regs.minutes) {
            Ok(()) => {},
            Err(e) => {
                assert(self.sent().subrange(0, n) =~= before);
                return Err(e);
            },
        }
        match self.write_register(Register::Hours, regs.hours) {
            Ok(()) => {},
            Err(e) => {
                assert(self.sent().subrange(0, n) =~= before);
                return Err(e);
            },
        }
        match self.write_register(Register::Day, regs.day) {
            Ok(()) => {},
            Err(e) => {
                assert(self.sent().subrange(0, n) =~= before);
                return Err(e);
            },
        }
        match self.write_register(Register::Date, regs.date) {
            Ok(()) => {},
            Err(e) => {
                assert(self.sent().subrange(0, n) =~= before);
                return Err(e);
            },
        }
        match self.write_register(Register::Month, regs.month) {
            Ok(()) => {},
            Err(e) => {
                assert(self.sent().subrange(0, n) =~= before);
                return Err(e);
            },
        }
        let r = self.write_register(Register::Year, regs.year);
        assert(self.sent().subrange(0, n) =~= before);
        r
    }
}

} // verus!

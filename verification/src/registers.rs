//! Register addresses and control-register bit masks of the DS3231.

use vstd::prelude::*;
use crate::error::Error;

verus! {

/// Seven-bit bus address of the device.
pub const DS3231_ADDR: u8 = 0x68;

/// Control bit that selects interrupt output (1) or square-wave output (0).
pub const INTCN_BIT: u8 = 0b0000_0100;

/// The two rate-select bits of the control register.
pub const RS_MASK: u8 = 0b0001_1000;

/// Highest register address the device implements.
pub const MAX_REGISTER_ADDR: u8 = 0x12;

/// The registers of the device, one per address.
#[derive(Debug, Clone, Copy, PartialEq, Eq, Structural)]
pub enum Register {
    Seconds,
    Minutes,
    Hours,
    Day,
    Date,
    Month,
    Year,
    Alarm1Seconds,
    Alarm1Minutes,
    Alarm1Hours,
    Alarm1DayDate,
    Alarm2Minutes,
    Alarm2Hours,
    Alarm2DayDate,
    Control,
    Status,
    AgingOffset,
    TemperatureMsb,
    TemperatureLsb,
}

impl Register {
    /// The address of the register as a mathematical value.
    pub open spec fn spec_addr(self) -> u8 {
        match self {
            Register::Seconds => 0x00,
            Register::Minutes => 0x01,
            Register::Hours => 0x02,
            Register::Day => 0x03,
            Register::Date => 0x04,
            Register::Month => 0x05,
            Register::Year => 0x06,
            Register::Alarm1Seconds => 0x07,
            Register::Alarm1Minutes => 0x08,
            Register::Alarm1Hours => 0x09,
            Register::Alarm1DayDate => 0x0A,
            Register::Alarm2Minutes => 0x0B,
            Register::Alarm2Hours => 0x0C,
            Register::Alarm2DayDate => 0x0D,
            Register::Control => 0x0E,
            Register::Status => 0x0F,
            Register::AgingOffset => 0x10,
            Register::TemperatureMsb => 0x11,
            Register::TemperatureLsb => 0x12,
        }
    }

    /// The address of the register on the device.
    pub fn addr(self) -> (a: u8)
        ensures
            a == self.spec_addr(),
            a <= MAX_REGISTER_ADDR,
    {
        match self {
            Register::Seconds => 0x00,
            Register::Minutes => 0x01,
            Register::Hours => 0x02,
            Register::Day => 0x03,
            Register::Date => 0x04,
            Register::Month => 0x05,
            Register::Year => 0x06,
            Register::Alarm1Seconds => 0x07,
            Register::Alarm1Minutes => 0x08,
            Register::Alarm1Hours => 0x09,
            Register::Alarm1DayDate => 0x0A,
            Register::Alarm2Minutes => 0x0B,
            Register::Alarm2Hours => 0x0C,
            Register::Alarm2DayDate => 0x0D,
            Register::Control => 0x0E,
            Register::Status => 0x0F,
            Register::AgingOffset => 0x10,
            Register::TemperatureMsb => 0x11,
            Register::TemperatureLsb => 0x12,
        }
    }

    /// The register that lives at `addr`, if the device has one there.
    pub fn from_addr(addr: u8) -> (r: Option<Register>)
        ensures
            addr <= MAX_REGISTER_ADDR <==> r.is_some(),
            r matches Some(reg) ==> reg.spec_addr() == addr,
    {
        match addr {
            0x00 => Some(Register::Seconds),
            0x01 => Some(Register::Minutes),
            0x02 => Some(Register::Hours),
            0x03 => Some(Register::Day),
            0x04 => Some(Register::Date),
            0x05 => Some(Register::Month),
            0x06 => Some(Register::Year),
            0x07 => Some(Register::Alarm1Seconds),
            0x08 => Some(Register::Alarm1Minutes),
            0x09 => Some(Register::Alarm1Hours),
            0x0A => Some(Register::Alarm1DayDate),
            0x0B => Some(Register::Alarm2Minutes),
            0x0C => Some(Register::Alarm2Hours),
            0x0D => Some(Register::Alarm2DayDate),
            0x0E => Some(Register::Control),
            0x0F => Some(Register::Status),
            0x10 => Some(Register::AgingOffset),
            0x11 => Some(Register::TemperatureMsb),
            0x12 => Some(Register::TemperatureLsb),
            _ => None,
        }
    }
}

/// The register at `addr`, or the refusal of an address the device does not
/// have. Meant to be called before any access by raw address.
pub fn checked_register<E>(addr: u8) -> (r: Result<Register, Error<E>>)
    ensures
        addr <= MAX_REGISTER_ADDR ==> r is Ok && r->Ok_0.spec_addr() == addr,
        addr > MAX_REGISTER_ADDR ==> r == Err::<Register, Error<E>>(Error::InvalidAddress),
{
    match Register::from_addr(addr) {
        Some(register) => Ok(register),
        None => Err(Error::InvalidAddress),
    }
}

/// Two different registers never share an address.
pub proof fn lemma_addr_injective(a: Register, b: Register)
    requires
        a.spec_addr() == b.spec_addr(),
    ensures
        a == b,
{
}

/// The rate-select field does not overlap the INTCN bit, and it covers
/// exactly bits 3 and 4.
pub proof fn lemma_masks_disjoint()
    ensures
        RS_MASK & INTCN_BIT == 0,
        RS_MASK == (1u8 << 3) | (1u8 << 4),
        INTCN_BIT == 1u8 << 2,
{
    assert(0b0001_1000u8 & 0b0000_0100u8 == 0) by (bit_vector);
    assert(0b0001_1000u8 == (1u8 << 3) | (1u8 << 4)) by (bit_vector);
    assert(0b0000_0100u8 == 1u8 << 2) by (bit_vector);
}

} // verus!

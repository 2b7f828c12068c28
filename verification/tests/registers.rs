use ds3231_rtc::error::Error;
use ds3231_rtc::registers::{
    checked_register, Register, DS3231_ADDR, INTCN_BIT, MAX_REGISTER_ADDR, RS_MASK,
};

#[test]
fn test_register_addresses() {
    assert_eq!(Register::Seconds.addr(), 0x00);
    assert_eq!(Register::Minutes.addr(), 0x01);
    assert_eq!(Register::Hours.addr(), 0x02);
    assert_eq!(Register::Day.addr(), 0x03);
    assert_eq!(Register::Date.addr(), 0x04);
    assert_eq!(Register::Month.addr(), 0x05);
    assert_eq!(Register::Year.addr(), 0x06);
    assert_eq!(Register::Alarm1Seconds.addr(), 0x07);
    assert_eq!(Register::Alarm1DayDate.addr(), 0x0A);
    assert_eq!(Register::Alarm2Minutes.addr(), 0x0B);
    assert_eq!(Register::Alarm2DayDate.addr(), 0x0D);
    assert_eq!(Register::Control.addr(), 0x0E);
    assert_eq!(Register::Status.addr(), 0x0F);
    assert_eq!(Register::AgingOffset.addr(), 0x10);
    assert_eq!(Register::TemperatureMsb.addr(), 0x11);
    assert_eq!(Register::TemperatureLsb.addr(), 0x12);
}

#[test]
fn test_device_constants() {
    assert_eq!(DS3231_ADDR, 0x68);
    assert_eq!(INTCN_BIT, 0b0000_0100);
    assert_eq!(RS_MASK, 0b0001_1000);
    assert_eq!(RS_MASK & INTCN_BIT, 0);
    assert_eq!(MAX_REGISTER_ADDR, 0x12);
}

#[test]
fn test_from_addr_inverts_addr() {
    for addr in 0..=MAX_REGISTER_ADDR {
        let register = Register::from_addr(addr).unwrap();
        assert_eq!(register.addr(), addr);
    }
    assert_eq!(Register::from_addr(0x0E), Some(Register::Control));
}

#[test]
fn test_from_addr_out_of_range() {
    assert_eq!(Register::from_addr(0x13), None);
    assert_eq!(Register::from_addr(0xFF), None);
}

#[test]
fn test_checked_register_accepts_device_addresses() {
    assert_eq!(checked_register::<()>(0x00), Ok(Register::Seconds));
    assert_eq!(checked_register::<()>(0x0E), Ok(Register::Control));
    assert_eq!(checked_register::<()>(0x12), Ok(Register::TemperatureLsb));
}

#[test]
fn test_checked_register_refuses_addresses_past_the_end() {
    assert_eq!(checked_register::<()>(0x13), Err(Error::InvalidAddress));
    assert_eq!(checked_register::<()>(0xFF), Err(Error::InvalidAddress));
}

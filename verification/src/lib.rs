//! Driver logic for the DS3231 real-time clock: register map, BCD time
//! codec, read-modify-write register access, reading and setting the clock,
//! and square-wave control.

pub mod bcd;
pub mod bus;
pub mod clock;
pub mod datetime;
pub mod ds3231;
pub mod error;
pub mod registers;
pub mod square_wave;

pub use bus::{Recorded, RegisterBus, Transport};
pub use ds3231::Ds3231;
pub use error::Error;

[package]
name = "ds3231_rtc"
version = "0.1.0"
edition = "2021"
publish = false

[dependencies]
embedded-hal = "1.0"
rtc-hal = "*"
defmt = "*"

[dev-dependencies]
embedded-hal-mock = "*"

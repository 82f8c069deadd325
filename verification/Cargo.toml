[package]
name = "embedded-sht3x"
version = "0.2.0"
edition = "2021"
publish = false

[dependencies]
crc = "=3.4.0"
embedded-hal = "=1.0.0"
embedded-hal-async = "1"
bitflags = "=2.13.2"
weather-utils = "=0.5.0"

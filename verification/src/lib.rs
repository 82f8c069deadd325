//! Verified core of a driver for the Sensirion SHT3x (SHT30, SHT31, SHT35)
//! humidity and temperature sensors.
//!
//! The bus traffic itself (I²C writes, reads and delays) is performed by the
//! code that owns the bus; this crate decides what is sent and what the
//! replies of the sensor mean: command words, CRC checks of every reply,
//! decoding of the status register and of raw measurements.

pub mod command;
pub mod crc;
pub mod decode;
pub mod device;
pub mod error;
pub mod status;
pub mod status_text;

pub use crate::command::{
    Command, Repeatability, DEFAULT_I2C_ADDRESS, I2C_ADDRESS_LOGIC_HIGH, I2C_ADDRESS_LOGIC_LOW,
};
pub use crate::decode::{decode_measurement, decode_status, get_u16_value, RawMeasurement};
pub use crate::device::Sht3x;
pub use crate::error::Error;
pub use crate::status::Status;

use vstd::prelude::*;

use crate::command::{Command, Repeatability, RESET_DURATION_US};
use crate::decode::{be_u16, decode_measurement, decode_status, word_intact, RawMeasurement};
use crate::error::Error;
use crate::status::Status;

verus! {

/// SHT3x device driver state: the bus and the delay provider it talks
/// through, the sensor's bus address and the repeatability of measurements.
///
/// The bus exchanges themselves are performed by the owner of the bus; the
/// methods here say which command words go out and what the replies mean.
#[derive(Debug)]
pub struct Sht3x<I2C, D> {
    address: u8,
    delay: D,
    i2c: I2C,
    /// The repeatability to use for measurements (defaults to medium).
    pub repeatability: Repeatability,
}

impl<I2C, D> Sht3x<I2C, D> {
    /// The bus address of the sensor.
    pub closed spec fn spec_address(&self) -> u8 {
        self.address
    }

    /// The bus the sensor is reached through.
    pub closed spec fn spec_i2c(&self) -> I2C {
        self.i2c
    }

    /// The repeatability of measurements.
    pub closed spec fn spec_repeatability(&self) -> Repeatability {
        self.repeatability
    }

    /// The delay provider of the driver.
    pub closed spec fn spec_delay(&self) -> D {
        self.delay
    }

    /// A driver for the sensor at `address` on `i2c`, measuring with medium
    /// repeatability. The sensor has not been reset yet.
    pub fn from_parts(i2c: I2C, address: u8, delay: D) -> (dev: Self)
        ensures
            dev.spec_address() == address,
            dev.spec_i2c() == i2c,
            dev.spec_delay() == delay,
            dev.spec_repeatability() == Repeatability::Medium,
    {
        Sht3x { address, delay, i2c, repeatability: Repeatability::Medium }
    }

    /// The bus address of the sensor.
    pub fn address(&self) -> (address: u8)
        ensures
            address == self.spec_address(),
    {
        self.address
    }

    /// The bus and the delay provider, for the exchanges with the sensor.
    pub fn bus_mut(&mut self) -> (parts: (&mut I2C, &mut D))
        ensures
            *parts.0 == old(self).spec_i2c(),
            *parts.1 == old(self).spec_delay(),
            final(self).spec_i2c() == *final(parts.0),
            final(self).spec_delay() == *final(parts.1),
            final(self).spec_address() == old(self).spec_address(),
            final(self).spec_repeatability() == old(self).spec_repeatability(),
    {
        (&mut self.i2c, &mut self.delay)
    }

    /// Gives the bus and the delay provider back.
    pub fn release(self) -> (parts: (I2C, D))
        ensures
            parts.0 == self.spec_i2c(),
            parts.1 == self.spec_delay(),
    {
        (self.i2c, self.delay)
    }

    /// The command that starts a single-shot measurement with the
    /// configured repeatability.
    pub fn measurement_command(&self) -> (command: Command)
        ensures
            command == self.spec_repeatability().spec_measurement_command(),
    {
        self.repeatability.measurement_command()
    }

    /// Completes the creation of the driver once the sensor has been reset:
    /// the driver itself, or the error that the reset met.
    pub fn finish_new<E>(self, reset: Result<(), Error<E>>) -> (res: Result<Self, Error<E>>)
        ensures
            reset is Ok ==> res == Ok::<Self, Error<E>>(self),
            reset matches Err(e) ==> res == Err::<Self, Error<E>>(e),
    {
        match reset {
            Ok(()) => Ok(self),
            Err(e) => Err(e),
        }
    }
}

/// The result of a command that only writes its command word: success, or
/// the bus error that the write met.
pub fn write_outcome<E>(write: Result<(), E>) -> (res: Result<(), Error<E>>)
    ensures
        write is Ok ==> res is Ok,
        write matches Err(e) ==> res == Err::<(), Error<E>>(Error::I2c(e)),
{
    match write {
        Ok(()) => Ok(()),
        Err(e) => Err(Error::I2c(e)),
    }
}

/// What follows the write of the reset command: how long to wait, in
/// microseconds, before the sensor is idle, or the bus error that the write
/// met.
pub fn after_reset_write<E>(write: Result<(), E>) -> (res: Result<u32, Error<E>>)
    ensures
        write is Ok ==> res == Ok::<u32, Error<E>>(RESET_DURATION_US),
        write matches Err(e) ==> res == Err::<u32, Error<E>>(Error::I2c(e)),
{
    match write {
        Ok(()) => Ok(RESET_DURATION_US),
        Err(e) => Err(Error::I2c(e)),
    }
}

/// The result of a get-status exchange, given what the bus returned: the
/// bus error, or the decoded reply.
pub fn status_outcome<E>(reply: Result<[u8; 3], E>) -> (res: Result<Status, Error<E>>)
    ensures
        reply matches Err(e) ==> res == Err::<Status, Error<E>>(Error::I2c(e)),
        reply matches Ok(data) ==> (word_intact(data[0], data[1], data[2]) ==> (res matches Ok(
            status,
        ) && status@ == be_u16(data[0], data[1]))),
        reply matches Ok(data) ==> (!word_intact(data[0], data[1], data[2]) ==> res matches Err(
            Error::BadCrc,
        )),
{
    match reply {
        Ok(data) => decode_status(&data),
        Err(e) => Err(Error::I2c(e)),
    }
}

/// The result of a single-shot measurement exchange, given what the bus
/// returned: the bus error, or the decoded reply.
pub fn measurement_outcome<E>(reply: Result<[u8; 6], E>) -> (res: Result<RawMeasurement, Error<E>>)
    ensures
        reply matches Err(e) ==> res == Err::<RawMeasurement, Error<E>>(Error::I2c(e)),
        reply matches Ok(data) ==> (word_intact(data[0], data[1], data[2]) && word_intact(
            data[3],
            data[4],
            data[5],
        ) ==> res == Ok::<RawMeasurement, Error<E>>(
            RawMeasurement { temperature: be_u16(data[0], data[1]), humidity: be_u16(data[3], data[4]) },
        )),
        reply matches Ok(data) ==> (!word_intact(data[0], data[1], data[2]) || !word_intact(
            data[3],
            data[4],
            data[5],
        ) ==> res matches Err(Error::BadCrc)),
{
    match reply {
        Ok(data) => decode_measurement(&data),
        Err(e) => Err(Error::I2c(e)),
    }
}

} // verus!

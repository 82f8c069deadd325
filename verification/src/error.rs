use vstd::prelude::*;

verus! {

/// All possible errors generated when talking to the sensor.
///
/// `E` is the error type of the I²C bus that carried the exchange.
#[derive(Debug)]
pub enum Error<E> {
    /// I²C bus error
    I2c(E),
    /// The computed CRC and the one sent by the device mismatch
    BadCrc,
}

impl<E> From<E> for Error<E> {
    fn from(value: E) -> (res: Self) {
        Error::I2c(value)
    }
}

impl<E> vstd::std_specs::convert::FromSpecImpl<E> for Error<E> {
    open spec fn obeys_from_spec() -> bool {
        true
    }

    open spec fn from_spec(v: E) -> Self {
        Error::I2c(v)
    }
}

} // verus!

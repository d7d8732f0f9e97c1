//! Errors reported by the driver.
use vstd::prelude::*;

verus! {

/// SEN5x errors, generic over the bus's own error type.
#[derive(Debug, PartialEq)]
pub enum Error<E> {
    /// I2C bus error
    I2c(E),
    /// CRC checksum validation failed
    Crc,
    /// Not allowed when periodic measurement is running
    NotAllowed,
    /// Internal fail
    Internal,
}

} // verus!

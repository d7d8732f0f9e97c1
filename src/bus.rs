//! The capabilities the driver needs from its environment: an I2C bus and a
//! blocking delay. Each keeps an abstract record of what was asked of it.
use vstd::prelude::*;

verus! {

/// One transaction on a bus whose errors are of type `E`, and how it ended.
pub enum Transfer<E> {
    /// The bytes written to a device address, and the outcome of the write.
    Write(u8, Seq<u8>, Result<(), E>),
    /// A read of the given number of bytes from a device address, and the
    /// bytes received or the bus error.
    Read(u8, nat, Result<Seq<u8>, E>),
}

/// How a read that returned `r` is recorded.
pub open spec fn received<E>(r: Result<Vec<u8>, E>) -> Result<Seq<u8>, E> {
    match r {
        Ok(v) => Ok(v@),
        Err(e) => Err(e),
    }
}

/// A blocking I2C bus.
pub trait I2cBus {
    type Error;

    /// The transactions issued on the bus so far, oldest first. This record is
    /// ghost state that exists for the proofs only. The default, an empty
    /// record, lets implementations outside verified code compile; no such
    /// implementation can meet the contracts below, so what the driver's
    /// contracts say of the traffic is proved only for implementations that
    /// define the record and verify against them, such as the scripted bus.
    closed spec fn transfers(&self) -> Seq<Transfer<Self::Error>> {
        Seq::empty()
    }

    /// Writes `bytes` to the device at `address` in one transaction.
    fn write(&mut self, address: u8, bytes: &[u8]) -> (r: Result<(), Self::Error>)
        ensures
            final(self).transfers() == old(self).transfers().push(
                Transfer::Write(address, bytes@, r),
            ),
    ;

    /// Reads `len` bytes from the device at `address` in one transaction.
    fn read(&mut self, address: u8, len: usize) -> (r: Result<Vec<u8>, Self::Error>)
        ensures
            final(self).transfers() == old(self).transfers().push(
                Transfer::Read(address, len as nat, received(r)),
            ),
            r is Ok ==> r->Ok_0@.len() == len,
    ;
}

/// A blocking delay provider.
pub trait DelayMs {
    /// The delays requested so far, in milliseconds, oldest first. Ghost state;
    /// as for the bus, the empty default meets no contract below, and what is
    /// proved of the delays holds only for implementations that define it.
    closed spec fn waits(&self) -> Seq<u32> {
        Seq::empty()
    }

    /// Blocks for `ms` milliseconds.
    fn delay_ms(&mut self, ms: u32)
        ensures
            final(self).waits() == old(self).waits().push(ms),
    ;
}

} // verus!

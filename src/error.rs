//! Errors of the driver.
use vstd::prelude::*;

verus! {

/// What can go wrong in a driver operation. `Ecs` is the error of the chip
/// select line, `Espi` that of the register bus.
#[derive(Debug, Clone, Copy, PartialEq, Eq)]
pub enum Error<Ecs, Espi> {
    /// The chip select line could not be driven.
    Cs(Ecs),
    /// A register transaction failed.
    Spi(Espi),
    /// A bounded wait ran out.
    Timeout,
    /// An AES key was neither empty nor 16 bytes long.
    AesKeySize,
    /// A sync word was longer than 8 bytes.
    SyncSize,
    /// A received packet was longer than the buffer given for it.
    BufferTooSmall,
    /// A packet to send was longer than 255 bytes.
    PacketTooLarge,
}

impl<Ecs, Espi> Error<Ecs, Espi> {
    /// The error came from the chip select line or the bus.
    pub open spec fn is_bus(self) -> bool {
        self is Cs || self is Spi
    }
}

} // verus!

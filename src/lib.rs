//! Driver for the RFM69 packet radio transceiver, over a register bus.
pub mod bus;
pub mod encoding;
pub mod error;
pub mod registers;
pub mod rfm;

pub use bus::{ChipSelect, DelayMs, NoCs, ReadWrite};
pub use error::Error;
pub use rfm::Rfm69;

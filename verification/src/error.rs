//! Error types for the CC1101 driver.

use vstd::prelude::*;

verus! {

/// All errors that the CC1101 driver reports.
#[derive(Debug)]
pub enum Error<SpiError> {
    /// An error occurred on the SPI bus
    Spi(SpiError),
    /// The RX FIFO overflowed before it could be read.
    /// The receive sequence flushes the FIFO and returns to IDLE.
    RxFifoOverflow,
    /// The TX FIFO underflowed during transmission.
    TxFifoUnderflow,
    /// A packet was received but the hardware CRC check failed.
    /// Only returned when `crc_enable` is set in the radio configuration.
    CrcError,
    /// The provided payload exceeds the maximum packet length.
    /// For variable-length mode, max is 61 bytes (63 without appended status
    /// bytes); fixed-length is set at config time.
    PayloadTooLong,
    /// The chip did not respond correctly during initialisation.
    /// Check your SPI wiring and that the CC1101 is powered.
    InvalidChip {
        /// Raw value of the PARTNUM status register (expected 0x00)
        part: u8,
        /// Raw value of the VERSION status register (expected 0x04 or 0x14)
        version: u8,
    },
    /// The chip was in an unexpected state when an operation was attempted.
    UnexpectedState {
        /// Raw MARCSTATE register value at the time of the error
        state: u8,
    },
}

impl<E> From<E> for Error<E> {
    fn from(e: E) -> (r: Self) {
        Error::Spi(e)
    }
}

impl<E> vstd::std_specs::convert::FromSpecImpl<E> for Error<E> {
    open spec fn obeys_from_spec() -> bool {
        true
    }

    open spec fn from_spec(v: E) -> Self {
        Error::Spi(v)
    }
}

} // verus!

//! A verified driver core for the CC1101 sub-1 GHz RF transceiver.
//!
//! The crate turns a human-readable [`RadioConfig`] into CC1101 register
//! values, plans the SPI command sequences that configure the chip and move
//! packets through its FIFOs, and decodes what the chip reports back (chip
//! identity, FIFO status, RSSI, LQI and CRC). Every function here is proved
//! against its contract; the bus itself (SPI transactions and GDO pin waits)
//! is driven by the caller, which executes the planned commands in order.

pub mod config;
pub mod driver;
pub mod error;
pub mod regs;
pub mod rx;

pub use config::{Modulation, PacketLength, RadioConfig, SyncMode, TxPower};
pub use driver::{Cc1101, Command, ReceivedPacket};
pub use error::Error;
pub use rx::{Receiver, RxAction, RxEvent};

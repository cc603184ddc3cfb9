//! Verified core of a driver for a microcontroller UART.
//!
//! The crate holds every decision the driver takes and none of its bus
//! accesses. A caller reads the status register and control register 1 of a
//! peripheral into the plain values of `registers`, calls in here, and carries
//! out what comes back: the register writes of a set-up, a read or a write of
//! the data register, the wakers to invoke.

pub mod config;
pub mod context;
pub mod io;
pub mod pins;
pub mod registers;
pub mod serial;
pub mod setup;
pub mod time;

pub use crate::config::{Config, InvalidConfig, Parity, StopBits, WordLength};
pub use crate::context::{Context, Wakeups};
pub use crate::io::{Error, Poll, ReadAction, WriteAction};
pub use crate::pins::{NoRx, NoTx, PinRx, PinTx, Pins};
pub use crate::registers::{Control, Direction, Event, Status};
pub use crate::serial::{Intr, IntrHandler, IntrStream, Rx, Serial, Tx};
pub use crate::setup::{Step, StopBitSet};
pub use crate::time::{Bps, Hertz};

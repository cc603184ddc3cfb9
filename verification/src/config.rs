//! Line configuration: baud rate and framing.

use vstd::prelude::*;
use crate::time::Bps;

verus! {

/// Number of data bits in a frame.
#[derive(Clone, Copy, Debug, PartialEq, Eq, Structural)]
pub enum WordLength {
    DataBits8,
    DataBits9,
}

/// Parity generation and checking.
#[derive(Clone, Copy, Debug, PartialEq, Eq, Structural)]
pub enum Parity {
    ParityNone,
    ParityEven,
    ParityOdd,
}

/// Number of stop bits that close a frame.
#[derive(Clone, Copy, Debug, PartialEq, Eq, Structural)]
pub enum StopBits {
    /// 1 stop bit
    STOP1,
    /// 0.5 stop bits
    STOP0P5,
    /// 2 stop bits
    STOP2,
    /// 1.5 stop bits
    STOP1P5,
}

/// What a peripheral is set up with. A configuration is a plain value: it is
/// built once, handed to `Serial::configure` and not kept afterwards.
#[derive(Clone, Copy, Debug, PartialEq, Eq, Structural)]
pub struct Config {
    pub baudrate: Bps,
    pub wordlength: WordLength,
    pub parity: Parity,
    pub stopbits: StopBits,
}

/// Reserved failure of `Serial::configure`. No input produces it today.
#[derive(Clone, Copy, Debug, PartialEq, Eq, Structural)]
pub struct InvalidConfig;

/// The configuration that `Config::default` returns: 19200 baud, 8 data
/// bits, no parity, 1 stop bit.
pub open spec fn default_config() -> Config {
    Config {
        baudrate: Bps(19_200),
        wordlength: WordLength::DataBits8,
        parity: Parity::ParityNone,
        stopbits: StopBits::STOP1,
    }
}

impl Config {
    /// A configuration can be programmed when its baud rate is positive.
    pub open spec fn valid(self) -> bool {
        self.baudrate.0 > 0
    }

    pub fn baudrate(self, baudrate: Bps) -> (r: Config)
        ensures
            r == (Config { baudrate, ..self }),
    {
        let mut c = self;
        c.baudrate = baudrate;
        c
    }

    pub fn parity_none(self) -> (r: Config)
        ensures
            r == (Config { parity: Parity::ParityNone, ..self }),
    {
        let mut c = self;
        c.parity = Parity::ParityNone;
        c
    }

    pub fn parity_even(self) -> (r: Config)
        ensures
            r == (Config { parity: Parity::ParityEven, ..self }),
    {
        let mut c = self;
        c.parity = Parity::ParityEven;
        c
    }

    pub fn parity_odd(self) -> (r: Config)
        ensures
            r == (Config { parity: Parity::ParityOdd, ..self }),
    {
        let mut c = self;
        c.parity = Parity::ParityOdd;
        c
    }

    pub fn wordlength_8(self) -> (r: Config)
        ensures
            r == (Config { wordlength: WordLength::DataBits8, ..self }),
    {
        let mut c = self;
        c.wordlength = WordLength::DataBits8;
        c
    }

    pub fn wordlength_9(self) -> (r: Config)
        ensures
            r == (Config { wordlength: WordLength::DataBits9, ..self }),
    {
        let mut c = self;
        c.wordlength = WordLength::DataBits9;
        c
    }

    pub fn stopbits(self, stopbits: StopBits) -> (r: Config)
        ensures
            r == (Config { stopbits, ..self }),
    {
        let mut c = self;
        c.stopbits = stopbits;
        c
    }
}

impl Default for Config {
    fn default() -> (c: Config)
        ensures
            c == default_config(),
    {
        Config {
            baudrate: Bps(19_200),
            wordlength: WordLength::DataBits8,
            parity: Parity::ParityNone,
            stopbits: StopBits::STOP1,
        }
    }
}

} // verus!

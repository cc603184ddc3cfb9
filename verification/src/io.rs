//! Single-poll reading and writing: what one look at the status register
//! decides.
//!
//! Nothing here waits. Each decision names the one access to the data
//! register that is due, if any, and the caller makes it.

use vstd::prelude::*;
use crate::registers::Status;

verus! {

/// Serial error
#[derive(Clone, Copy, Debug, PartialEq, Eq, Structural)]
pub enum Error {
    /// Framing error
    Framing,
    /// Noise error
    Noise,
    /// RX buffer overrun
    Overrun,
    /// Parity check error
    Parity,
}

/// The outcome of one poll.
#[derive(Debug, PartialEq, Eq)]
pub enum Poll<T> {
    /// The operation is done, with this result.
    Ready(T),
    /// Nothing could be done now. This says nothing about when it can.
    Pending,
}

/// What a read does with the data register.
#[derive(Clone, Copy, Debug, PartialEq, Eq, Structural)]
pub enum ReadAction {
    /// An error is flagged. Read the data register through, which clears the
    /// flags, drop what it held, and report the error.
    Discard(Error),
    /// A word has arrived. Read the low byte of the data register and report
    /// it.
    Take,
    /// Nothing has arrived. Leave the data register alone.
    Wait,
}

/// What a write does with the data register.
#[derive(Clone, Copy, Debug, PartialEq, Eq, Structural)]
pub enum WriteAction {
    /// The transmit register is free. Store this byte in the data register.
    Store(u8),
    /// The transmit register is occupied. Leave the data register alone.
    Wait,
}

/// The error that a status reports: of the flagged ones the first in the
/// order parity, framing, noise, overrun.
pub open spec fn reported_error(sr: Status) -> Option<Error> {
    if sr.pe {
        Some(Error::Parity)
    } else if sr.fe {
        Some(Error::Framing)
    } else if sr.nf {
        Some(Error::Noise)
    } else if sr.ore {
        Some(Error::Overrun)
    } else {
        None
    }
}

/// What a read decides for a status. An error comes before data.
pub open spec fn read_action(sr: Status) -> ReadAction {
    match reported_error(sr) {
        Some(e) => ReadAction::Discard(e),
        None => if sr.rxne {
            ReadAction::Take
        } else {
            ReadAction::Wait
        },
    }
}

/// What a write of `byte` decides for a status.
pub open spec fn write_action(sr: Status, byte: u8) -> WriteAction {
    if sr.txe {
        WriteAction::Store(byte)
    } else {
        WriteAction::Wait
    }
}

/// What a flush decides for a status: done once the last frame has left the
/// shift register.
pub open spec fn flush_result(sr: Status) -> Poll<Result<(), Error>> {
    if sr.tc {
        Poll::Ready(Ok(()))
    } else {
        Poll::Pending
    }
}

impl ReadAction {
    /// True when the action reads the data register.
    pub open spec fn reads_data(self) -> bool {
        self != ReadAction::Wait
    }

    /// What the read reports once the action is carried out and the data
    /// register held `data`.
    pub open spec fn outcome(self, data: u8) -> Poll<Result<u8, Error>> {
        match self {
            ReadAction::Discard(e) => Poll::Ready(Err(e)),
            ReadAction::Take => Poll::Ready(Ok(data)),
            ReadAction::Wait => Poll::Pending,
        }
    }

    /// Closes a read. `data` is the low byte that the data register gave
    /// when the action was carried out; for `Wait` no access was made and the
    /// value is not looked at.
    pub fn finish(self, data: u8) -> (r: Poll<Result<u8, Error>>)
        ensures
            r == self.outcome(data),
    {
        match self {
            ReadAction::Discard(e) => Poll::Ready(Err(e)),
            ReadAction::Take => Poll::Ready(Ok(data)),
            ReadAction::Wait => Poll::Pending,
        }
    }
}

impl WriteAction {
    /// What the write reports once the action is carried out.
    pub open spec fn outcome(self) -> Poll<Result<(), Error>> {
        match self {
            WriteAction::Store(_) => Poll::Ready(Ok(())),
            WriteAction::Wait => Poll::Pending,
        }
    }

    /// Closes a write.
    pub fn finish(self) -> (r: Poll<Result<(), Error>>)
        ensures
            r == self.outcome(),
    {
        match self {
            WriteAction::Store(_) => Poll::Ready(Ok(())),
            WriteAction::Wait => Poll::Pending,
        }
    }
}

/// Picks the error to report from a status.
pub fn error_of(sr: Status) -> (e: Option<Error>)
    ensures
        e == reported_error(sr),
        e is Some <==> sr.has_error(),
{
    if sr.pe {
        Some(Error::Parity)
    } else if sr.fe {
        Some(Error::Framing)
    } else if sr.nf {
        Some(Error::Noise)
    } else if sr.ore {
        Some(Error::Overrun)
    } else {
        None
    }
}

} // verus!

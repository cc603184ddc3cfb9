//! Plain-value images of the registers that the driver reads and writes.
//!
//! Field names follow the flag names of the hardware manual. Only the flags
//! that the driver acts on are held; whoever moves an image to or from the
//! bus keeps the remaining bits of the register as they are.

use vstd::prelude::*;

verus! {

/// Interrupt event
#[derive(Clone, Copy, Debug, PartialEq, Eq, Structural)]
pub enum Event {
    /// New data has been received
    Rxne,
    /// New data can be sent
    Txe,
    /// Idle line state detected
    Idle,
}

/// One half of a peripheral.
#[derive(Clone, Copy, Debug, PartialEq, Eq, Structural)]
pub enum Direction {
    /// The receive half.
    Rx,
    /// The transmit half.
    Tx,
}

/// One reading of the status register.
#[derive(Clone, Copy, Debug, PartialEq, Eq, Structural)]
pub struct Status {
    /// Parity error
    pub pe: bool,
    /// Framing error
    pub fe: bool,
    /// Noise detected
    pub nf: bool,
    /// Overrun error
    pub ore: bool,
    /// Idle line detected
    pub idle: bool,
    /// Receive data register not empty
    pub rxne: bool,
    /// Transmission complete
    pub tc: bool,
    /// Transmit data register empty
    pub txe: bool,
}

/// The status in which no flag is set.
pub open spec fn no_flags() -> Status {
    Status {
        pe: false,
        fe: false,
        nf: false,
        ore: false,
        idle: false,
        rxne: false,
        tc: false,
        txe: false,
    }
}

impl Direction {
    /// The other half.
    pub open spec fn other(self) -> Direction {
        match self {
            Direction::Rx => Direction::Tx,
            Direction::Tx => Direction::Rx,
        }
    }
}

impl Status {
    /// True when at least one of the four receive errors is flagged.
    pub open spec fn has_error(self) -> bool {
        self.pe || self.fe || self.nf || self.ore
    }

    /// The flag that announces the event of a direction to the interrupt
    /// service: a received word for the receive half, an empty transmit
    /// register for the transmit half.
    pub open spec fn event(self, dir: Direction) -> bool {
        match dir {
            Direction::Rx => self.rxne,
            Direction::Tx => self.txe,
        }
    }
}

impl Default for Status {
    fn default() -> (s: Status)
        ensures
            s == no_flags(),
    {
        Status {
            pe: false,
            fe: false,
            nf: false,
            ore: false,
            idle: false,
            rxne: false,
            tc: false,
            txe: false,
        }
    }
}

/// The driver's part of control register 1.
#[derive(Clone, Copy, Debug, PartialEq, Eq, Structural)]
pub struct Control {
    /// Peripheral enable
    pub ue: bool,
    /// Word length: set for 9 data bits
    pub m: bool,
    /// Parity control enable
    pub pce: bool,
    /// Parity selection: set for odd parity
    pub ps: bool,
    /// Transmitter enable
    pub te: bool,
    /// Receiver enable
    pub re: bool,
    /// Interrupt on idle line
    pub idleie: bool,
    /// Interrupt on receive data register not empty
    pub rxneie: bool,
    /// Interrupt on transmission complete
    pub tcie: bool,
    /// Interrupt on transmit data register empty
    pub txeie: bool,
}

/// The baseline that a reset leaves: everything off.
pub open spec fn reset_control() -> Control {
    Control {
        ue: false,
        m: false,
        pce: false,
        ps: false,
        te: false,
        re: false,
        idleie: false,
        rxneie: false,
        tcie: false,
        txeie: false,
    }
}

impl Control {
    /// The image with the interrupt enable of `event` set to `on` and every
    /// other bit kept.
    pub open spec fn with_event(self, event: Event, on: bool) -> Control {
        match event {
            Event::Rxne => Control { rxneie: on, ..self },
            Event::Txe => Control { txeie: on, ..self },
            Event::Idle => Control { idleie: on, ..self },
        }
    }

    /// The image with the interrupt enables of one half set to `on` and every
    /// other bit kept. The receive half has one enable, for a received word;
    /// the transmit half has two, for an empty transmit register and for a
    /// completed transmission.
    pub open spec fn with_direction(self, dir: Direction, on: bool) -> Control {
        match dir {
            Direction::Rx => Control { rxneie: on, ..self },
            Direction::Tx => Control { txeie: on, tcie: on, ..self },
        }
    }

    /// True when no interrupt enable of the half is set.
    pub open spec fn disarmed(self, dir: Direction) -> bool {
        match dir {
            Direction::Rx => !self.rxneie,
            Direction::Tx => !self.txeie && !self.tcie,
        }
    }

    /// The framing that the peripheral was set up with: word length, parity
    /// enable and parity selection.
    pub open spec fn framing(self) -> (bool, bool, bool) {
        (self.m, self.pce, self.ps)
    }

    /// True when every interrupt enable of the half is set.
    pub open spec fn armed(self, dir: Direction) -> bool {
        match dir {
            Direction::Rx => self.rxneie,
            Direction::Tx => self.txeie && self.tcie,
        }
    }

    /// Sets or clears the interrupt enable of one event.
    pub fn set_event(&mut self, event: Event, on: bool)
        ensures
            *final(self) == old(self).with_event(event, on),
    {
        match event {
            Event::Rxne => {
                self.rxneie = on;
            },
            Event::Txe => {
                self.txeie = on;
            },
            Event::Idle => {
                self.idleie = on;
            },
        }
    }

    /// Sets or clears the interrupt enables of one half.
    pub fn set_direction(&mut self, dir: Direction, on: bool)
        ensures
            *final(self) == old(self).with_direction(dir, on),
    {
        match dir {
            Direction::Rx => {
                self.rxneie = on;
            },
            Direction::Tx => {
                self.txeie = on;
                self.tcie = on;
            },
        }
    }
}

impl Default for Control {
    fn default() -> (c: Control)
        ensures
            c == reset_control(),
    {
        Control {
            ue: false,
            m: false,
            pce: false,
            ps: false,
            te: false,
            re: false,
            idleie: false,
            rxneie: false,
            tcie: false,
            txeie: false,
        }
    }
}

} // verus!

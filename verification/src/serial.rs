//! The handles of a peripheral and what they decide.
//!
//! `Serial` owns a peripheral and its pins. `Rx` and `Tx` stand for the two
//! halves after a split; they own nothing and are told apart by the type of
//! the peripheral alone. Every method takes the register readings it needs
//! and hands back what is to be written.

use vstd::prelude::*;
use core::marker::PhantomData;
use crate::config::{Config, InvalidConfig};
use crate::context::{listened, serviced, serviced_control, unlistened, woken, Context, Wakeups};
use crate::io::{
    error_of, flush_result, read_action, write_action, Error, Poll, ReadAction, WriteAction,
};
use crate::pins::Pins;
use crate::registers::{Control, Direction, Event, Status};
use crate::setup::{setup, setup_steps, Step, StopBitSet};
use crate::time::Hertz;

verus! {

/// Serial abstraction
pub struct Serial<USART, PINS> {
    usart: USART,
    pins: PINS,
}

/// Serial receiver
pub struct Rx<USART> {
    _usart: PhantomData<USART>,
}

/// Serial transmitter
pub struct Tx<USART> {
    _usart: PhantomData<USART>,
}

/// The interrupt service of peripheral `T`.
pub struct IntrHandler<T> {
    _usart: PhantomData<T>,
}

/// Interrupt enables, event by event.
pub trait Intr: Sized {
    /// Starts listening for an interrupt event
    fn listen(&mut self, cr1: &mut Control, event: Event)
        ensures
            *final(cr1) == old(cr1).with_event(event, true),
            *final(self) == *old(self),
    ;

    /// Stop listening for an interrupt event
    fn unlisten(&mut self, cr1: &mut Control, event: Event)
        ensures
            *final(cr1) == old(cr1).with_event(event, false),
            *final(self) == *old(self),
    ;

    /// Return true if the line idle status is set
    fn is_idle(&self, sr: Status) -> (b: bool)
        ensures
            b == sr.idle,
    ;

    /// Return true if the tx register is empty (and can accept data)
    fn is_txe(&self, sr: Status) -> (b: bool)
        ensures
            b == sr.txe,
    ;

    /// Return true if the rx register is not empty (and can be read)
    fn is_rxne(&self, sr: Status) -> (b: bool)
        ensures
            b == sr.rxne,
    ;
}

/// Waiting for the event of one half of a peripheral.
pub trait IntrStream: Sized {
    /// The half that the handle stands for.
    spec fn direction() -> Direction;

    /// Starts listening for an interrupt event
    ///
    /// Arms the interrupts of the half and stores `waker` for it, in place of
    /// a waker stored before. The waker of the other half stays.
    fn listen<W>(&mut self, ctx: &mut Option<Context<W>>, cr1: &mut Control, waker: W)
        ensures
            *final(ctx) == listened(*old(ctx), Self::direction(), waker),
            *final(cr1) == old(cr1).with_direction(Self::direction(), true),
            *final(self) == *old(self),
    ;

    /// Stop listening for an interrupt event
    ///
    /// Disarms the interrupts of the half and forgets its waker without
    /// invoking it. The waker of the other half stays.
    fn unlisten<W>(&mut self, ctx: &mut Option<Context<W>>, cr1: &mut Control)
        ensures
            *final(ctx) == unlistened(*old(ctx), Self::direction()),
            *final(cr1) == old(cr1).with_direction(Self::direction(), false),
            *final(self) == *old(self),
    ;
}

impl<USART, PINS> View for Serial<USART, PINS> {
    type V = (USART, PINS);

    closed spec fn view(&self) -> (USART, PINS) {
        (self.usart, self.pins)
    }
}

impl<USART, PINS> Serial<USART, PINS> {
    /// Takes a peripheral and its pins into a handle and lays out the
    /// register operations that bring the peripheral up. The caller carries
    /// them out in order.
    pub fn configure(
        usart: USART,
        pins: PINS,
        config: Config,
        clock: Hertz,
        set: StopBitSet,
    ) -> (r: Result<(Self, [Step; 6]), InvalidConfig>) where PINS: Pins<USART>
        requires
            config.valid(),
        ensures
            r matches Ok((serial, steps)) && serial@ == (usart, pins) && steps@ == setup_steps(
                config,
                clock,
                set,
            ),
    {
        let steps = setup(&config, clock, set);
        Ok((Serial { usart, pins }, steps))
    }

    /// Gives up the handle, and with it the peripheral and the pins, for one
    /// token per half. The tokens can be used apart from each other.
    pub fn split(self) -> (Tx<USART>, Rx<USART>) {
        (Tx { _usart: PhantomData }, Rx { _usart: PhantomData })
    }

    /// Gives the peripheral and the pins back. The registers stay as they
    /// were programmed.
    pub fn release(self) -> (r: (USART, PINS))
        ensures
            r == self@,
    {
        (self.usart, self.pins)
    }

    /// One poll of the receiver: see `Rx::read`.
    pub fn read(&mut self, sr: Status) -> (action: ReadAction)
        ensures
            action == read_action(sr),
            *final(self) == *old(self),
    {
        let mut rx: Rx<USART> = Rx { _usart: PhantomData };
        rx.read(sr)
    }

    /// One poll of the transmitter: see `Tx::write`.
    pub fn write(&mut self, sr: Status, byte: u8) -> (action: WriteAction)
        ensures
            action == write_action(sr, byte),
            *final(self) == *old(self),
    {
        let mut tx: Tx<USART> = Tx { _usart: PhantomData };
        tx.write(sr, byte)
    }

    /// One poll for the end of transmission: see `Tx::flush`.
    pub fn flush(&mut self, sr: Status) -> (r: Poll<Result<(), Error>>)
        ensures
            r == flush_result(sr),
            *final(self) == *old(self),
    {
        let mut tx: Tx<USART> = Tx { _usart: PhantomData };
        tx.flush(sr)
    }
}

impl<USART, PINS> Intr for Serial<USART, PINS> {
    fn listen(&mut self, cr1: &mut Control, event: Event) {
        cr1.set_event(event, true);
    }

    fn unlisten(&mut self, cr1: &mut Control, event: Event) {
        cr1.set_event(event, false);
    }

    fn is_idle(&self, sr: Status) -> (b: bool) {
        sr.idle
    }

    fn is_txe(&self, sr: Status) -> (b: bool) {
        sr.txe
    }

    fn is_rxne(&self, sr: Status) -> (b: bool) {
        sr.rxne
    }
}

impl<USART> Rx<USART> {
    /// One poll of the receiver.
    ///
    /// A flagged error wins over a received word, and of several errors the
    /// one reported is the first in the order parity, framing, noise,
    /// overrun. Whichever is reported, the data register is read to clear
    /// them all.
    pub fn read(&mut self, sr: Status) -> (action: ReadAction)
        ensures
            action == read_action(sr),
            action is Discard <==> sr.has_error(),
            action is Take <==> !sr.has_error() && sr.rxne,
            action.reads_data() <==> sr.has_error() || sr.rxne,
            *final(self) == *old(self),
    {
        match error_of(sr) {
            Some(e) => ReadAction::Discard(e),
            None => {
                if sr.rxne {
                    ReadAction::Take
                } else {
                    ReadAction::Wait
                }
            },
        }
    }
}

impl<USART> IntrStream for Rx<USART> {
    open spec fn direction() -> Direction {
        Direction::Rx
    }

    fn listen<W>(&mut self, ctx: &mut Option<Context<W>>, cr1: &mut Control, waker: W) {
        cr1.set_direction(Direction::Rx, true);
        match ctx {
            Some(c) => {
                c.rx_waker = Some(waker);
            },
            None => {
                *ctx = Some(Context { rx_waker: Some(waker), tx_waker: None });
            },
        }
    }

    fn unlisten<W>(&mut self, ctx: &mut Option<Context<W>>, cr1: &mut Control) {
        match ctx {
            Some(c) => {
                c.rx_waker = None;
            },
            None => {},
        }
        cr1.set_direction(Direction::Rx, false);
    }
}

impl<USART> Tx<USART> {
    /// One poll of the transmitter: the byte goes out if the transmit
    /// register is free, and not otherwise. Nothing is kept for later.
    pub fn write(&mut self, sr: Status, byte: u8) -> (action: WriteAction)
        ensures
            action == write_action(sr, byte),
            action is Wait <==> !sr.txe,
            *final(self) == *old(self),
    {
        if sr.txe {
            WriteAction::Store(byte)
        } else {
            WriteAction::Wait
        }
    }

    /// One poll for the end of transmission. An empty transmit register is
    /// not enough: the last frame must have left the shift register.
    pub fn flush(&mut self, sr: Status) -> (r: Poll<Result<(), Error>>)
        ensures
            r == flush_result(sr),
            r is Ready <==> sr.tc,
            *final(self) == *old(self),
    {
        if sr.tc {
            Poll::Ready(Ok(()))
        } else {
            Poll::Pending
        }
    }
}

impl<USART> IntrStream for Tx<USART> {
    open spec fn direction() -> Direction {
        Direction::Tx
    }

    fn listen<W>(&mut self, ctx: &mut Option<Context<W>>, cr1: &mut Control, waker: W) {
        match ctx {
            Some(c) => {
                c.tx_waker = Some(waker);
            },
            None => {
                *ctx = Some(Context { rx_waker: None, tx_waker: Some(waker) });
            },
        }
        cr1.set_direction(Direction::Tx, true);
    }

    fn unlisten<W>(&mut self, ctx: &mut Option<Context<W>>, cr1: &mut Control) {
        match ctx {
            Some(c) => {
                c.tx_waker = None;
            },
            None => {},
        }
        cr1.set_direction(Direction::Tx, false);
    }
}

impl<USART> IntrHandler<USART> {
    /// True when the peripheral has a record, that is when somebody has
    /// listened on it before. Without one the interrupt service leaves
    /// everything alone, the pending flag of the line included.
    pub fn accepts<W>(ctx: &Option<Context<W>>) -> (b: bool)
        ensures
            b == (*ctx is Some),
    {
        ctx.is_some()
    }

    /// Serves one interrupt of the peripheral.
    ///
    /// `sr` is one reading of the status register, taken after the pending
    /// flag of the line was cleared. For each half whose event shows, the
    /// receive half first, the stored waker is taken out and handed back, and
    /// the interrupts of the half are disarmed, whether a waker was stored or
    /// not. A half whose event does not show is left as it is.
    pub fn interrupt<W>(ctx: &mut Option<Context<W>>, sr: Status, cr1: &mut Control) -> (out:
        Wakeups<W>)
        ensures
            *final(ctx) == serviced(*old(ctx), sr),
            *final(cr1) == serviced_control(*old(ctx), sr, *old(cr1)),
            out == woken(*old(ctx), sr),
    {
        let mut out = Wakeups { rx: None, tx: None };
        if ctx.is_some() {
            if sr.rxne {
                let mut rx: Rx<USART> = Rx { _usart: PhantomData };
                out.rx = take_waker(ctx, Direction::Rx);
                rx.unlisten(ctx, cr1);
            }
            if sr.txe {
                let mut tx: Tx<USART> = Tx { _usart: PhantomData };
                out.tx = take_waker(ctx, Direction::Tx);
                tx.unlisten(ctx, cr1);
            }
        }
        out
    }
}

/// Takes the waker of one half out of the record.
fn take_waker<W>(ctx: &mut Option<Context<W>>, dir: Direction) -> (w: Option<W>)
    ensures
        w == crate::context::pending(*old(ctx), dir),
        *final(ctx) == unlistened(*old(ctx), dir),
{
    match ctx {
        Some(c) => match dir {
            Direction::Rx => c.rx_waker.take(),
            Direction::Tx => c.tx_waker.take(),
        },
        None => None,
    }
}

} // verus!

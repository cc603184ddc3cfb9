//! Which pin may serve which peripheral, decided by the compiler.
//!
//! A pin type can carry the transmit signal of peripheral `USART` only if it
//! implements `PinTx<USART>`, and the receive signal only if it implements
//! `PinRx<USART>`. The impls are the table of what a chip wires to what; they
//! cost nothing at run time. A pair that the table does not allow does not
//! compile.

use vstd::prelude::*;

verus! {

/// A pair of pins that may serve peripheral `USART`.
pub trait Pins<USART> {

}

/// A pin that may carry the transmit signal of peripheral `USART`.
pub trait PinTx<USART> {

}

/// A pin that may carry the receive signal of peripheral `USART`.
pub trait PinRx<USART> {

}

impl<USART, TX, RX> Pins<USART> for (TX, RX) where TX: PinTx<USART>, RX: PinRx<USART> {

}

/// A filler type for when the Tx pin is unnecessary
pub struct NoTx;

/// A filler type for when the Rx pin is unnecessary
pub struct NoRx;

impl<USART> PinTx<USART> for NoTx {

}

impl<USART> PinRx<USART> for NoRx {

}

} // verus!

//! Bringing a peripheral up: what is written where, and in which order.

use vstd::prelude::*;
use crate::config::{Config, Parity, StopBits, WordLength};
use crate::registers::Control;
use crate::time::{Bps, Hertz};

verus! {

/// The stop-bit lengths that a peripheral can generate.
#[derive(Clone, Copy, Debug, PartialEq, Eq, Structural)]
pub enum StopBitSet {
    /// 0.5, 1, 1.5 and 2 stop bits.
    Full,
    /// 1 and 2 stop bits only.
    Reduced,
}

/// One register operation of a set-up.
#[derive(Clone, Copy, Debug, PartialEq, Eq, Structural)]
pub enum Step {
    /// Switch on the bus clock of the peripheral.
    EnableBusClock,
    /// Put the three control registers back to their reset values.
    ResetControl,
    /// Write control register 1 in one access.
    WriteControl(Control),
    /// Write the stop-bit field of control register 2.
    WriteStopBits(StopBits),
    /// Write the baud-rate register.
    WriteDivisor(u32),
    /// Unmask the interrupt line of the peripheral at the interrupt
    /// controller. No event is enabled by this.
    UnmaskInterrupt,
}

/// The baud divisor: clock over baud rate, rounded half up.
pub open spec fn divisor(clock: Hertz, baud: Bps) -> int
    recommends
        baud.0 > 0,
{
    (clock.0 + baud.0 / 2) / (baud.0 as int)
}

/// Control register 1 as a configuration wants it: peripheral, transmitter
/// and receiver on, the framing bits after the configuration, every interrupt
/// enable off.
pub open spec fn control_word(config: Config) -> Control {
    Control {
        ue: true,
        m: config.wordlength == WordLength::DataBits9,
        pce: config.parity != Parity::ParityNone,
        ps: config.parity == Parity::ParityOdd,
        te: true,
        re: true,
        idleie: false,
        rxneie: false,
        tcie: false,
        txeie: false,
    }
}

/// The stop-bit length that is programmed for a requested one. A peripheral
/// with the full set takes every request as it is; one with the reduced set
/// takes the next longer length that it has.
pub open spec fn programmed_stop_bits(set: StopBitSet, requested: StopBits) -> StopBits {
    match set {
        StopBitSet::Full => requested,
        StopBitSet::Reduced => match requested {
            StopBits::STOP0P5 => StopBits::STOP1,
            StopBits::STOP1 => StopBits::STOP1,
            StopBits::STOP1P5 => StopBits::STOP2,
            StopBits::STOP2 => StopBits::STOP2,
        },
    }
}

/// The operations of a set-up, first to last.
pub open spec fn setup_steps(config: Config, clock: Hertz, set: StopBitSet) -> Seq<Step>
    recommends
        config.valid(),
{
    seq![
        Step::EnableBusClock,
        Step::ResetControl,
        Step::WriteControl(control_word(config)),
        Step::WriteStopBits(programmed_stop_bits(set, config.stopbits)),
        Step::WriteDivisor(divisor(clock, config.baudrate) as u32),
        Step::UnmaskInterrupt,
    ]
}

/// The divisor is never larger than the clock, so it fits the register
/// whenever the clock does.
pub proof fn lemma_divisor_bounds(clock: Hertz, baud: Bps)
    requires
        baud.0 > 0,
    ensures
        0 <= divisor(clock, baud) <= clock.0,
{
    let c = clock.0 as int;
    let b = baud.0 as int;
    let h = b / 2;
    let q = (c + h) / b;
    assert(0 <= h < b);
    assert(0 <= q <= c) by (nonlinear_arith)
        requires
            b > 0,
            c >= 0,
            0 <= h < b,
            q == (c + h) / b,
    ;
}

/// Computes the baud divisor. The sum is formed in 64 bits, so no clock and
/// no baud rate overflow it.
pub fn baud_divisor(clock: Hertz, baud: Bps) -> (div: u32)
    requires
        baud.0 > 0,
    ensures
        div == divisor(clock, baud),
{
    let c: u64 = clock.0 as u64;
    let b: u64 = baud.0 as u64;
    let q: u64 = (c + b / 2) / b;
    proof {
        lemma_divisor_bounds(clock, baud);
    }
    q as u32
}

/// Encodes the framing of a configuration for control register 1.
pub fn control_for(config: &Config) -> (cr1: Control)
    ensures
        cr1 == control_word(*config),
{
    Control {
        ue: true,
        m: match config.wordlength {
            WordLength::DataBits8 => false,
            WordLength::DataBits9 => true,
        },
        pce: match config.parity {
            Parity::ParityNone => false,
            _ => true,
        },
        ps: match config.parity {
            Parity::ParityOdd => true,
            _ => false,
        },
        te: true,
        re: true,
        idleie: false,
        rxneie: false,
        tcie: false,
        txeie: false,
    }
}

/// Picks the stop-bit length to program on a peripheral with the given set.
pub fn config_stop(set: StopBitSet, requested: StopBits) -> (programmed: StopBits)
    ensures
        programmed == programmed_stop_bits(set, requested),
        set == StopBitSet::Full ==> programmed == requested,
        set == StopBitSet::Reduced ==> (programmed == StopBits::STOP1 || programmed
            == StopBits::STOP2),
{
    match set {
        StopBitSet::Full => requested,
        StopBitSet::Reduced => match requested {
            StopBits::STOP0P5 => StopBits::STOP1,
            StopBits::STOP1 => StopBits::STOP1,
            StopBits::STOP1P5 => StopBits::STOP2,
            StopBits::STOP2 => StopBits::STOP2,
        },
    }
}

/// Lays out the set-up of a peripheral for a configuration and a clock.
pub fn setup(config: &Config, clock: Hertz, set: StopBitSet) -> (steps: [Step; 6])
    requires
        config.valid(),
    ensures
        steps@ == setup_steps(*config, clock, set),
{
    let div = baud_divisor(clock, config.baudrate);
    let cr1 = control_for(config);
    let stop = config_stop(set, config.stopbits);
    [
        Step::EnableBusClock,
        Step::ResetControl,
        Step::WriteControl(cr1),
        Step::WriteStopBits(stop),
        Step::WriteDivisor(div),
        Step::UnmaskInterrupt,
    ]
}

} // verus!

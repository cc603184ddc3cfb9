//! The record that normal code and the interrupt service share.
//!
//! A peripheral has one record, made when somebody first listens and kept
//! from then on. It holds at most one waker for each half. The record is
//! plain data: whoever keeps it lets nothing touch it but under a critical
//! section that shuts the interrupt out.

use vstd::prelude::*;
use crate::registers::{Control, Direction, Event, Status};

verus! {

/// The pending wakers of one peripheral.
#[derive(Debug, PartialEq, Eq)]
pub struct Context<W> {
    /// Woken when a word has been received.
    pub rx_waker: Option<W>,
    /// Woken when the transmit register is empty.
    pub tx_waker: Option<W>,
}

/// The wakers that one run of the interrupt service took out of the record.
/// The caller invokes each once, the receive waker first.
#[derive(Debug, PartialEq, Eq)]
pub struct Wakeups<W> {
    pub rx: Option<W>,
    pub tx: Option<W>,
}

/// The record in which nobody waits.
pub open spec fn empty_context<W>() -> Context<W> {
    Context { rx_waker: None, tx_waker: None }
}

impl<W> Context<W> {
    /// The waker of one half.
    pub open spec fn waker(self, dir: Direction) -> Option<W> {
        match dir {
            Direction::Rx => self.rx_waker,
            Direction::Tx => self.tx_waker,
        }
    }

    /// The record with the waker of one half replaced and the other kept.
    pub open spec fn with_waker(self, dir: Direction, waker: Option<W>) -> Context<W> {
        match dir {
            Direction::Rx => Context { rx_waker: waker, ..self },
            Direction::Tx => Context { tx_waker: waker, ..self },
        }
    }
}

impl<W> Default for Context<W> {
    fn default() -> (c: Context<W>)
        ensures
            c == empty_context::<W>(),
    {
        Context { rx_waker: None, tx_waker: None }
    }
}

impl<W> Wakeups<W> {
    /// The waker taken for one half.
    pub open spec fn waker(self, dir: Direction) -> Option<W> {
        match dir {
            Direction::Rx => self.rx,
            Direction::Tx => self.tx,
        }
    }
}

/// The waker that the record of a peripheral holds for one half; none while
/// there is no record.
pub open spec fn pending<W>(ctx: Option<Context<W>>, dir: Direction) -> Option<W> {
    match ctx {
        Some(c) => c.waker(dir),
        None => None,
    }
}

/// The record after a listen on one half: it exists, holds the new waker for
/// that half, and holds for the other half what it held before.
pub open spec fn listened<W>(ctx: Option<Context<W>>, dir: Direction, waker: W) -> Option<
    Context<W>,
> {
    match ctx {
        Some(c) => Some(c.with_waker(dir, Some(waker))),
        None => Some(empty_context::<W>().with_waker(dir, Some(waker))),
    }
}

/// The record after an unlisten on one half: the waker of that half is gone.
/// No record is made where there was none.
pub open spec fn unlistened<W>(ctx: Option<Context<W>>, dir: Direction) -> Option<Context<W>> {
    match ctx {
        Some(c) => Some(c.with_waker(dir, None)),
        None => None,
    }
}

/// True when the interrupt service acts on one half: there is a record and
/// the status shows the event of that half.
pub open spec fn fires<W>(ctx: Option<Context<W>>, sr: Status, dir: Direction) -> bool {
    ctx is Some && sr.event(dir)
}

/// The record after one run of the interrupt service. A half whose event
/// shows loses its waker, whether it had one or not.
pub open spec fn serviced<W>(ctx: Option<Context<W>>, sr: Status) -> Option<Context<W>> {
    match ctx {
        Some(c) => Some(
            Context {
                rx_waker: if sr.rxne {
                    None
                } else {
                    c.rx_waker
                },
                tx_waker: if sr.txe {
                    None
                } else {
                    c.tx_waker
                },
            },
        ),
        None => None,
    }
}

/// Control register 1 after one run of the interrupt service. A half whose
/// event shows has its interrupt enables cleared.
pub open spec fn serviced_control<W>(ctx: Option<Context<W>>, sr: Status, cr1: Control) -> Control {
    let after_rx = if fires(ctx, sr, Direction::Rx) {
        cr1.with_direction(Direction::Rx, false)
    } else {
        cr1
    };
    if fires(ctx, sr, Direction::Tx) {
        after_rx.with_direction(Direction::Tx, false)
    } else {
        after_rx
    }
}

/// The wakers that one run of the interrupt service hands out.
pub open spec fn woken<W>(ctx: Option<Context<W>>, sr: Status) -> Wakeups<W> {
    Wakeups {
        rx: if fires(ctx, sr, Direction::Rx) {
            pending(ctx, Direction::Rx)
        } else {
            None
        },
        tx: if fires(ctx, sr, Direction::Tx) {
            pending(ctx, Direction::Tx)
        } else {
            None
        },
    }
}

/// A waker is handed out once. The first run of the interrupt service that
/// sees the event of a half after a listen hands out the waker of that
/// listen and leaves the half disarmed and its slot empty. A run after that
/// hands out nothing for the half and leaves it disarmed, whatever its status
/// shows, until somebody listens again.
pub proof fn lemma_wakes_once<W>(
    ctx: Option<Context<W>>,
    cr1: Control,
    dir: Direction,
    waker: W,
    first: Status,
    second: Status,
)
    requires
        first.event(dir),
    ensures
        ({
            let ctx_l = listened(ctx, dir, waker);
            let cr1_l = cr1.with_direction(dir, true);
            let ctx_1 = serviced(ctx_l, first);
            let cr1_1 = serviced_control(ctx_l, first, cr1_l);
            &&& woken(ctx_l, first).waker(dir) == Some(waker)
            &&& cr1_1.disarmed(dir)
            &&& pending(ctx_1, dir) is None
            &&& woken(ctx_1, second).waker(dir) is None
            &&& serviced_control(ctx_1, second, cr1_1).disarmed(dir)
        }),
{
}

/// A run of the interrupt service that does not see the event of a half
/// leaves the half alone: its waker stays stored, its interrupt enables stay
/// as they were, and nothing is handed out for it.
pub proof fn lemma_waits_for_event<W>(
    ctx: Option<Context<W>>,
    cr1: Control,
    dir: Direction,
    sr: Status,
)
    requires
        !sr.event(dir),
    ensures
        pending(serviced(ctx, sr), dir) == pending(ctx, dir),
        woken(ctx, sr).waker(dir) is None,
        serviced_control(ctx, sr, cr1).armed(dir) == cr1.armed(dir),
        serviced_control(ctx, sr, cr1).disarmed(dir) == cr1.disarmed(dir),
{
}

/// Without a record the interrupt service changes nothing and hands out
/// nothing.
pub proof fn lemma_service_without_record<W>(cr1: Control, sr: Status)
    ensures
        serviced(None::<Context<W>>, sr) == None::<Context<W>>,
        serviced_control(None::<Context<W>>, sr, cr1) == cr1,
        woken(None::<Context<W>>, sr) == (Wakeups::<W> { rx: None, tx: None }),
{
}

/// The record of a peripheral is made by the first listen and by nothing
/// else, and once made it stays: neither an unlisten nor the interrupt
/// service takes it away or makes one.
pub proof fn lemma_record_stays<W>(ctx: Option<Context<W>>, dir: Direction, waker: W, sr: Status)
    ensures
        listened(ctx, dir, waker) is Some,
        unlistened(ctx, dir) is Some <==> ctx is Some,
        serviced(ctx, sr) is Some <==> ctx is Some,
{
}

/// A half holds one waker: a second listen replaces the waker of the first.
pub proof fn lemma_listen_replaces<W>(
    ctx: Option<Context<W>>,
    dir: Direction,
    earlier: W,
    later: W,
)
    ensures
        listened(listened(ctx, dir, earlier), dir, later) == listened(ctx, dir, later),
        pending(listened(ctx, dir, later), dir) == Some(later),
{
}

/// An unlisten on a half where nobody waits and nothing is armed changes
/// nothing; and an unlisten after an unlisten changes nothing.
pub proof fn lemma_unlisten_idle<W>(ctx: Option<Context<W>>, cr1: Control, dir: Direction)
    ensures
        pending(ctx, dir) is None ==> unlistened(ctx, dir) == ctx,
        cr1.disarmed(dir) ==> cr1.with_direction(dir, false) == cr1,
        unlistened(unlistened(ctx, dir), dir) == unlistened(ctx, dir),
        cr1.with_direction(dir, false).with_direction(dir, false) == cr1.with_direction(
            dir,
            false,
        ),
{
}

/// The two halves do not disturb each other: a listen or an unlisten on one
/// half leaves the stored waker and the interrupt enables of the other half
/// as they were.
pub proof fn lemma_halves_independent<W>(
    ctx: Option<Context<W>>,
    cr1: Control,
    dir: Direction,
    waker: W,
    on: bool,
)
    ensures
        pending(listened(ctx, dir, waker), dir.other()) == pending(ctx, dir.other()),
        pending(unlistened(ctx, dir), dir.other()) == pending(ctx, dir.other()),
        cr1.with_direction(dir, on).armed(dir.other()) == cr1.armed(dir.other()),
        cr1.with_direction(dir, on).disarmed(dir.other()) == cr1.disarmed(dir.other()),
{
}

/// Nothing that arms, disarms or serves interrupts touches the framing that
/// the peripheral was set up with, nor switches the peripheral or one of its
/// halves on or off.
pub proof fn lemma_framing_kept<W>(
    ctx: Option<Context<W>>,
    cr1: Control,
    dir: Direction,
    event: Event,
    on: bool,
    sr: Status,
)
    ensures
        cr1.with_direction(dir, on).framing() == cr1.framing(),
        cr1.with_event(event, on).framing() == cr1.framing(),
        serviced_control(ctx, sr, cr1).framing() == cr1.framing(),
        cr1.with_direction(dir, on).ue == cr1.ue,
        cr1.with_direction(dir, on).te == cr1.te,
        cr1.with_direction(dir, on).re == cr1.re,
        serviced_control(ctx, sr, cr1).ue == cr1.ue,
        serviced_control(ctx, sr, cr1).te == cr1.te,
        serviced_control(ctx, sr, cr1).re == cr1.re,
{
}

} // verus!

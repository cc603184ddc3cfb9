use usart_serial::io::error_of;
use usart_serial::{
    Config, Error, Hertz, Intr, NoRx, NoTx, Poll, ReadAction, Rx, Serial, Status, StopBitSet, Tx,
    WriteAction,
};

struct Uart4;

fn serial() -> Serial<Uart4, (NoTx, NoRx)> {
    match Serial::configure(
        Uart4,
        (NoTx, NoRx),
        Config::default(),
        Hertz(16_000_000),
        StopBitSet::Reduced,
    ) {
        Ok((serial, _)) => serial,
        Err(_) => panic!("configure failed"),
    }
}

fn halves() -> (Tx<Uart4>, Rx<Uart4>) {
    serial().split()
}

fn flags(pe: bool, fe: bool, nf: bool, ore: bool) -> Status {
    Status { pe, fe, nf, ore, ..Status::default() }
}

#[test]
fn default_status_has_no_flag() {
    let sr = Status::default();
    assert!(!sr.pe && !sr.fe && !sr.nf && !sr.ore);
    assert!(!sr.idle && !sr.rxne && !sr.tc && !sr.txe);
}

#[test]
fn read_is_pending_while_nothing_has_arrived() {
    let (_, mut rx) = halves();
    let action = rx.read(Status::default());
    assert_eq!(action, ReadAction::Wait);
    assert_eq!(action.finish(0x55), Poll::Pending);
}

#[test]
fn read_takes_the_byte_that_has_arrived() {
    let (_, mut rx) = halves();
    let action = rx.read(Status { rxne: true, ..Status::default() });
    assert_eq!(action, ReadAction::Take);
    assert_eq!(action.finish(0x41), Poll::Ready(Ok(0x41)));
    assert_eq!(action.finish(0xff), Poll::Ready(Ok(0xff)));
    assert_eq!(action.finish(0x00), Poll::Ready(Ok(0x00)));
}

#[test]
fn read_ignores_the_transmit_flags() {
    let (_, mut rx) = halves();
    let sr = Status { txe: true, tc: true, idle: true, ..Status::default() };
    assert_eq!(rx.read(sr), ReadAction::Wait);
    let sr = Status { rxne: true, ..sr };
    assert_eq!(rx.read(sr), ReadAction::Take);
}

#[test]
fn read_reports_each_single_error() {
    let (_, mut rx) = halves();
    assert_eq!(rx.read(flags(true, false, false, false)), ReadAction::Discard(Error::Parity));
    assert_eq!(rx.read(flags(false, true, false, false)), ReadAction::Discard(Error::Framing));
    assert_eq!(rx.read(flags(false, false, true, false)), ReadAction::Discard(Error::Noise));
    assert_eq!(rx.read(flags(false, false, false, true)), ReadAction::Discard(Error::Overrun));
}

#[test]
fn read_reports_parity_over_overrun_then_recovers() {
    let (_, mut rx) = halves();
    let action = rx.read(flags(true, false, false, true));
    assert_eq!(action, ReadAction::Discard(Error::Parity));
    assert_eq!(action.finish(0x12), Poll::Ready(Err(Error::Parity)));
    // The data register was read, the flags are clear, a word is there.
    let action = rx.read(Status { rxne: true, ..Status::default() });
    assert_eq!(action, ReadAction::Take);
    assert_eq!(action.finish(0x34), Poll::Ready(Ok(0x34)));
}

#[test]
fn read_orders_errors_parity_framing_noise_overrun() {
    let (_, mut rx) = halves();
    assert_eq!(rx.read(flags(true, true, true, true)), ReadAction::Discard(Error::Parity));
    assert_eq!(rx.read(flags(true, true, false, false)), ReadAction::Discard(Error::Parity));
    assert_eq!(rx.read(flags(true, false, true, false)), ReadAction::Discard(Error::Parity));
    assert_eq!(rx.read(flags(false, true, true, true)), ReadAction::Discard(Error::Framing));
    assert_eq!(rx.read(flags(false, true, true, false)), ReadAction::Discard(Error::Framing));
    assert_eq!(rx.read(flags(false, true, false, true)), ReadAction::Discard(Error::Framing));
    assert_eq!(rx.read(flags(false, false, true, true)), ReadAction::Discard(Error::Noise));
}

#[test]
fn read_reports_an_error_before_data() {
    let (_, mut rx) = halves();
    let sr = Status { ore: true, rxne: true, ..Status::default() };
    let action = rx.read(sr);
    assert_eq!(action, ReadAction::Discard(Error::Overrun));
    assert_eq!(action.finish(0x77), Poll::Ready(Err(Error::Overrun)));
    let sr = Status { fe: true, rxne: true, txe: true, ..Status::default() };
    assert_eq!(rx.read(sr), ReadAction::Discard(Error::Framing));
}

#[test]
fn error_of_matches_the_flags() {
    assert_eq!(error_of(Status::default()), None);
    assert_eq!(error_of(Status { rxne: true, txe: true, ..Status::default() }), None);
    assert_eq!(error_of(flags(false, false, true, true)), Some(Error::Noise));
    assert_eq!(error_of(flags(true, false, false, true)), Some(Error::Parity));
}

#[test]
fn write_is_pending_while_the_transmit_register_is_occupied() {
    let (mut tx, _) = halves();
    let action = tx.write(Status::default(), 0x5a);
    assert_eq!(action, WriteAction::Wait);
    assert_eq!(action.finish(), Poll::Pending);
    // Transmission complete alone does not free the register.
    let sr = Status { tc: true, rxne: true, ..Status::default() };
    assert_eq!(tx.write(sr, 0x5a), WriteAction::Wait);
}

#[test]
fn write_stores_the_byte_once_the_transmit_register_is_free() {
    let (mut tx, _) = halves();
    let busy = Status::default();
    let free = Status { txe: true, ..Status::default() };
    assert_eq!(tx.write(busy, 0x5a), WriteAction::Wait);
    assert_eq!(tx.write(busy, 0x5a), WriteAction::Wait);
    let action = tx.write(free, 0x5a);
    assert_eq!(action, WriteAction::Store(0x5a));
    assert_eq!(action.finish(), Poll::Ready(Ok(())));
    assert_eq!(tx.write(free, 0x00), WriteAction::Store(0x00));
    assert_eq!(tx.write(free, 0xff), WriteAction::Store(0xff));
}

#[test]
fn flush_waits_for_transmission_complete() {
    let (mut tx, _) = halves();
    assert_eq!(tx.flush(Status::default()), Poll::Pending);
    // An empty transmit register is not the end of the transmission.
    assert_eq!(tx.flush(Status { txe: true, ..Status::default() }), Poll::Pending);
    assert_eq!(tx.flush(Status { tc: true, ..Status::default() }), Poll::Ready(Ok(())));
    assert_eq!(tx.flush(Status { tc: true, txe: true, ..Status::default() }), Poll::Ready(Ok(())));
}

#[test]
fn serial_polls_as_its_halves_do() {
    let mut s = serial();
    let (mut tx, mut rx) = halves();
    let all = [
        Status::default(),
        Status { rxne: true, ..Status::default() },
        Status { txe: true, ..Status::default() },
        Status { tc: true, ..Status::default() },
        Status { pe: true, ore: true, rxne: true, ..Status::default() },
        Status { nf: true, txe: true, tc: true, ..Status::default() },
    ];
    for sr in all {
        assert_eq!(s.read(sr), rx.read(sr));
        assert_eq!(s.write(sr, 0x21), tx.write(sr, 0x21));
        assert_eq!(s.flush(sr), tx.flush(sr));
    }
    assert_eq!(s.read(all[4]), ReadAction::Discard(Error::Parity));
    assert_eq!(s.write(all[2], 0x21), WriteAction::Store(0x21));
    assert_eq!(s.flush(all[3]), Poll::Ready(Ok(())));
}

#[test]
fn serial_reports_the_status_flags() {
    let s = serial();
    let none = Status::default();
    assert!(!s.is_idle(none) && !s.is_txe(none) && !s.is_rxne(none));
    let idle = Status { idle: true, ..none };
    assert!(s.is_idle(idle) && !s.is_txe(idle) && !s.is_rxne(idle));
    let txe = Status { txe: true, ..none };
    assert!(!s.is_idle(txe) && s.is_txe(txe) && !s.is_rxne(txe));
    let rxne = Status { rxne: true, ..none };
    assert!(!s.is_idle(rxne) && !s.is_txe(rxne) && s.is_rxne(rxne));
}

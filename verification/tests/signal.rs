use drogue_wasm::signal::Signal;

#[test]
fn reset_then_poll_stays_pending() {
    let mut s: Signal<u32> = Signal::new();
    s.reset();
    assert_eq!(s.poll_wait(), None);
    assert_eq!(s.poll_wait(), None);
    assert_eq!(s.poll_wait(), None);
}

#[test]
fn notify_completes_exactly_once() {
    let mut s: Signal<u32> = Signal::new();
    s.reset();
    assert_eq!(s.poll_wait(), None);
    s.notify(5);
    assert_eq!(s.poll_wait(), Some(5));
    assert_eq!(s.poll_wait(), None);
}

#[test]
fn notify_without_waiter_is_kept() {
    let mut s: Signal<&'static str> = Signal::new();
    s.notify("edge");
    assert_eq!(s.poll_wait(), Some("edge"));
}

#[test]
fn latest_notification_wins() {
    let mut s: Signal<u32> = Signal::new();
    s.notify(1);
    s.notify(2);
    assert_eq!(s.poll_wait(), Some(2));
    assert_eq!(s.poll_wait(), None);
}

#[test]
fn reset_discards_stale_notification() {
    let mut s: Signal<u32> = Signal::new();
    s.notify(9);
    s.reset();
    assert_eq!(s.poll_wait(), None);
    s.notify(10);
    assert_eq!(s.poll_wait(), Some(10));
}

#[test]
fn notify_reports_whether_a_waiter_was_woken() {
    let mut s: Signal<u32> = Signal::new();
    assert!(!s.notify(1));
    s.reset();
    assert_eq!(s.poll_wait(), None);
    assert!(s.notify(2));
    assert!(!s.notify(3));
}

#[test]
fn abandoned_wait_leaves_signal_usable() {
    let mut s: Signal<u32> = Signal::new();
    s.reset();
    assert_eq!(s.poll_wait(), None);
    s.reset();
    s.notify(4);
    assert_eq!(s.poll_wait(), Some(4));
}

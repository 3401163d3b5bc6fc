use transport_bridge::drain::DrainSlot;

#[test]
fn drain_while_pending_returns_same_signal() {
    let mut slot = DrainSlot::new();
    let first = slot.drain();
    let second = slot.drain();
    assert_eq!(first, second);
}

#[test]
fn resolved_then_fresh_signal() {
    let mut slot = DrainSlot::new();
    let first = slot.drain();
    assert_eq!(slot.take_pending(), Some(first));
    let next = slot.drain();
    assert_ne!(first, next);
}

#[test]
fn take_pending_without_drain_is_noop() {
    let mut slot = DrainSlot::new();
    assert_eq!(slot.take_pending(), None);
    assert_eq!(slot.take_pending(), None);
}

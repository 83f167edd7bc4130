use node_bridge::runtime::RuntimeSlot;

#[test]
fn the_slot_starts_empty_and_fills_once() {
    let mut slot = RuntimeSlot::empty();
    assert!(slot.scheduler().is_none());
    assert!(slot.get_or_create().is_ok());
    assert!(slot.scheduler().is_some());
}

#[test]
fn repeated_calls_keep_the_slot_ready_and_usable() {
    let mut slot = RuntimeSlot::empty();
    assert!(slot.get_or_create().is_ok());
    assert!(slot.get_or_create().is_ok());
    assert!(slot.get_or_create().is_ok());
    let scheduler = slot.scheduler().unwrap();
    let answer = scheduler.block_on(async { 6 * 7 });
    assert_eq!(answer, 42);
}

use kernel_bridge::handle::ContextHandle;
use kernel_bridge::handle::ContextSlot;

#[test]
fn handle_gives_back_what_went_in() {
    let handle = ContextHandle::into_handle(vec![1u8, 2, 3]);
    assert_eq!(handle.from_handle(), vec![1u8, 2, 3]);
}

#[test]
fn handle_lends_the_same_value_every_time() {
    let handle = ContextHandle::into_handle(String::from("context"));
    for _ in 0..5 {
        assert_eq!(handle.borrow_handle(), "context");
    }
    assert_eq!(handle.from_handle(), "context");
}

#[test]
fn handle_of_unit_round_trips() {
    let handle = ContextHandle::into_handle(());
    assert_eq!(*handle.borrow_handle(), ());
    assert_eq!(handle.from_handle(), ());
}

#[test]
fn slot_starts_unopened() {
    let slot: ContextSlot<u32> = ContextSlot::new();
    assert!(slot.is_unopened());
    assert!(!slot.is_open());
}

#[test]
fn slot_goes_through_its_life_once() {
    let mut slot: ContextSlot<Vec<u32>> = ContextSlot::new();
    slot.store(vec![7, 8]);
    assert!(slot.is_open());
    assert!(!slot.is_unopened());
    assert_eq!(slot.borrow(), &vec![7, 8]);
    assert_eq!(slot.borrow(), &vec![7, 8]);
    assert!(slot.is_open());
    let reclaimed = slot.reclaim();
    assert_eq!(reclaimed, vec![7, 8]);
    assert!(!slot.is_open());
    assert!(!slot.is_unopened());
}

#[test]
fn slot_borrow_leaves_the_context_in_place() {
    let mut slot: ContextSlot<u64> = ContextSlot::new();
    slot.store(99);
    let mut seen = Vec::new();
    for _ in 0..4 {
        seen.push(*slot.borrow());
    }
    assert_eq!(seen, vec![99, 99, 99, 99]);
    assert_eq!(slot.reclaim(), 99);
}

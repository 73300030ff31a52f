use radarflow::csflow::cached_view::{ExternallyControlledValidator, INVALIDATE_ALWAYS, INVALIDATE_TICK};

#[test]
fn validator_starts_empty() {
    let controller = ExternallyControlledValidator::new();
    let v = controller.validator();
    assert!(v.slots.is_empty());
    assert_eq!(v.next_flags_local, INVALIDATE_ALWAYS);
    assert_eq!(v.last_count, 0);
    assert_eq!(v.tick_count_local, -1);
}

#[test]
fn always_slots_last_one_batch() {
    let controller = ExternallyControlledValidator::new();
    let mut v = controller.validator();
    v.allocate_slots(4);
    assert!(!v.is_slot_valid(0));
    v.update_validity();
    v.validate_slot(0);
    assert!(v.is_slot_valid(0));
    assert!(!v.is_slot_valid(1));
    v.update_validity();
    assert!(!v.is_slot_valid(0));
}

#[test]
fn tick_slots_follow_the_tick_count() {
    let mut controller = ExternallyControlledValidator::new();
    let mut v = controller.validator();
    v.allocate_slots(2);
    controller.set_next_flags(INVALIDATE_TICK);
    controller.set_tick_count(100);
    v.update_validity();
    v.validate_slot(1);
    assert!(v.is_slot_valid(1));
    v.update_validity();
    assert!(v.is_slot_valid(1));
    controller.set_tick_count(101);
    v.update_validity();
    assert!(!v.is_slot_valid(1));
}

#[test]
fn invalidated_slots_are_not_valid() {
    let controller = ExternallyControlledValidator::new();
    let mut v = controller.validator();
    v.allocate_slots(1);
    v.update_validity();
    v.validate_slot(0);
    assert!(v.is_slot_valid(0));
    v.invalidate_slot(0);
    assert!(!v.is_slot_valid(0));
}

#[test]
fn other_flags_validate_for_one_batch() {
    let mut controller = ExternallyControlledValidator::new();
    let mut v = controller.validator();
    v.allocate_slots(1);
    controller.set_next_flags(3);
    v.update_validity();
    v.validate_slot(0);
    assert!(v.is_slot_valid(0));
    assert_eq!(v.slots[0].flags, INVALIDATE_ALWAYS);
    v.update_validity();
    assert!(!v.is_slot_valid(0));
}

#[test]
fn allocation_invalidates_every_slot() {
    let controller = ExternallyControlledValidator::new();
    let mut v = controller.validator();
    v.allocate_slots(2);
    v.update_validity();
    v.validate_slot(0);
    v.validate_slot(1);
    assert!(v.is_slot_valid(0));
    v.allocate_slots(3);
    assert!(!v.is_slot_valid(0));
    assert!(!v.is_slot_valid(1));
    assert!(!v.is_slot_valid(2));
    assert_eq!(v.slots[0].value, -1);
}

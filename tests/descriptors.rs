use tlenek_traps::descriptors::{InterruptStackTable, StackError, DOUBLE_FAULT_STACK_SIZE};

#[test]
fn reserved_slot_holds_the_stack_top() {
    let t = InterruptStackTable::with_double_fault_stack(0x1000).unwrap();
    assert_eq!(t.stack_top(0), 0x1000 + 4096 * 5);
    assert_eq!(DOUBLE_FAULT_STACK_SIZE, 20480);
    for slot in 1..7 {
        assert_eq!(t.stack_top(slot), 0);
    }
}

#[test]
fn upper_half_stack_is_accepted() {
    let t = InterruptStackTable::with_double_fault_stack(0xFFFF_8000_0000_0000).unwrap();
    assert_eq!(t.stack_top(0), 0xFFFF_8000_0000_5000);
}

#[test]
fn bad_stack_regions_are_refused() {
    assert_eq!(
        InterruptStackTable::with_double_fault_stack(0x0000_8000_0000_0000).err(),
        Some(StackError::StartNotCanonical)
    );
    assert_eq!(
        InterruptStackTable::with_double_fault_stack(u64::MAX - 100).err(),
        Some(StackError::Overflow)
    );
    assert_eq!(
        InterruptStackTable::with_double_fault_stack(0x0000_7FFF_FFFF_F000).err(),
        Some(StackError::EndNotCanonical)
    );
}

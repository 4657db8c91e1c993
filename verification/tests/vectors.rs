use bringup::vectors::{base_vectors, irq_vectors, peripheral_vectors, Handler, VectorSlot};
use bringup::vectors::{BASE_VECTOR_COUNT, PERIPHERAL_VECTOR_COUNT, RESERVED_PERIPHERAL_SLOT};

#[test]
fn base_table_has_sixteen_slots_in_order() {
    let table = base_vectors();
    assert_eq!(table.len(), BASE_VECTOR_COUNT);
    assert_eq!(table.len(), 16);
    assert_eq!(table[0], VectorSlot::Bound(Handler::StackTop));
    assert_eq!(table[1], VectorSlot::Bound(Handler::Reset));
    assert_eq!(table[3], VectorSlot::Bound(Handler::HardFault));
    assert_eq!(table[11], VectorSlot::Bound(Handler::Svc));
    assert_eq!(table[15], VectorSlot::Bound(Handler::SysTick));
    for i in [2usize, 4, 5, 6, 7, 8, 9, 10, 12, 13, 14] {
        assert_eq!(table[i], VectorSlot::Bound(Handler::DefaultInterrupt));
    }
    for slot in &table {
        assert!(matches!(slot, VectorSlot::Bound(_)));
    }
}

#[test]
fn irq_table_routes_every_slot_to_the_shared_isr() {
    let table = irq_vectors();
    assert_eq!(table.len(), PERIPHERAL_VECTOR_COUNT);
    for slot in &table {
        assert_eq!(*slot, VectorSlot::Bound(Handler::GenericIsr));
    }
}

#[test]
fn peripheral_table_binds_every_assertable_slot() {
    let table = peripheral_vectors();
    assert_eq!(table.len(), PERIPHERAL_VECTOR_COUNT);
    for (i, slot) in table.iter().enumerate() {
        if i == RESERVED_PERIPHERAL_SLOT {
            assert_eq!(*slot, VectorSlot::Absent);
        } else {
            assert!(matches!(slot, VectorSlot::Bound(_)));
        }
    }
}

#[test]
fn peripheral_table_holds_the_vendor_assignment() {
    let table = peripheral_vectors();
    assert_eq!(table[0], VectorSlot::Bound(Handler::DefaultInterrupt));
    assert_eq!(table[1], VectorSlot::Bound(Handler::Pdca(0)));
    assert_eq!(table[16], VectorSlot::Bound(Handler::Pdca(15)));
    assert_eq!(table[25], VectorSlot::Bound(Handler::Gpio(0)));
    assert_eq!(table[36], VectorSlot::Bound(Handler::Gpio(11)));
    assert_eq!(table[39], VectorSlot::Bound(Handler::AstAlarm));
    assert_eq!(table[61], VectorSlot::Bound(Handler::Twim(0)));
    assert_eq!(table[62], VectorSlot::Bound(Handler::DefaultInterrupt));
    assert_eq!(table[63], VectorSlot::Bound(Handler::Twim(1)));
    assert_eq!(table[65], VectorSlot::Bound(Handler::Usart(0)));
    assert_eq!(table[66], VectorSlot::Bound(Handler::Usart(1)));
    assert_eq!(table[67], VectorSlot::Bound(Handler::Usart(2)));
    assert_eq!(table[68], VectorSlot::Bound(Handler::Usart(3)));
    assert_eq!(table[69], VectorSlot::Bound(Handler::Adcife));
    assert_eq!(table[76], VectorSlot::Absent);
    assert_eq!(table[77], VectorSlot::Bound(Handler::Twim(2)));
    assert_eq!(table[78], VectorSlot::Bound(Handler::Twim(3)));
    assert_eq!(table[79], VectorSlot::Bound(Handler::DefaultInterrupt));
}

use bringup::diag::{Indicator, Writer};
use bringup::interrupt::{active_interrupt_number, unhandled_interrupt, IPSR_EXCEPTION_MASK};

#[test]
fn active_number_is_the_low_nine_bits() {
    assert_eq!(IPSR_EXCEPTION_MASK, 0x1ff);
    assert_eq!(active_interrupt_number(0), 0);
    assert_eq!(active_interrupt_number(5), 5);
    assert_eq!(active_interrupt_number(0x1ff), 0x1ff);
    assert_eq!(active_interrupt_number(0x200), 0);
    assert_eq!(active_interrupt_number(0x205), 5);
    assert_eq!(active_interrupt_number(u32::MAX), 511);
}

#[test]
fn unhandled_interrupt_reports_the_masked_number() {
    let mut w = Writer::new();
    let mut indicator = Indicator::new();
    let processes = vec![true, false];
    // 0x205 masks to interrupt number 5
    let _halt = unhandled_interrupt(0x205, &mut w, &mut indicator, &processes);
    assert!(indicator.is_active());
    assert_eq!(w.config_count(), 1);
    assert_eq!(w.sent_bytes().as_slice(), b"5P-");
}

#[test]
fn unhandled_interrupt_renders_multi_digit_numbers() {
    let mut w = Writer::new();
    let mut indicator = Indicator::new();
    let processes: Vec<bool> = Vec::new();
    let _halt = unhandled_interrupt(0x1ff, &mut w, &mut indicator, &processes);
    assert_eq!(w.sent_bytes().as_slice(), b"511");
}

#[test]
fn unhandled_interrupt_after_debug_output_keeps_one_configuration() {
    let mut w = Writer::new();
    w.write_str(b"up ");
    let mut indicator = Indicator::new();
    let processes: Vec<bool> = Vec::new();
    let _halt = unhandled_interrupt(16, &mut w, &mut indicator, &processes);
    assert_eq!(w.config_count(), 1);
    assert_eq!(w.sent_bytes().as_slice(), b"up 16");
}

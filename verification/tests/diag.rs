use bringup::diag::{panic_fmt, Indicator, Writer};

#[test]
fn channel_starts_uninitialized_and_silent() {
    let w = Writer::new();
    assert!(!w.is_initialized());
    assert_eq!(w.config_count(), 0);
    assert!(w.sent_bytes().is_empty());
}

#[test]
fn two_writes_configure_once_and_send_in_order() {
    let mut w = Writer::new();
    w.write_str(b"first ");
    w.write_str(b"second");
    assert_eq!(w.config_count(), 1);
    assert_eq!(w.sent_bytes().as_slice(), b"first second");
    assert!(w.is_initialized());
}

#[test]
fn set_initialized_suppresses_configuration() {
    let mut w = Writer::new();
    w.set_initialized();
    assert!(w.is_initialized());
    w.write_str(b"text");
    assert_eq!(w.config_count(), 0);
    assert_eq!(w.sent_bytes().as_slice(), b"text");
}

#[test]
fn panic_before_any_use_configures_exactly_once() {
    let mut w = Writer::new();
    let mut indicator = Indicator::new();
    assert!(!indicator.is_active());
    let processes = vec![true, false, true];
    let _halt = panic_fmt(&mut w, &mut indicator, b"fault", &processes);
    assert!(indicator.is_active());
    assert_eq!(w.config_count(), 1);
    assert_eq!(w.sent_bytes().as_slice(), b"faultP-P");
}

#[test]
fn panic_after_prior_use_adds_no_configuration() {
    let mut w = Writer::new();
    w.write_str(b"boot ok ");
    assert_eq!(w.config_count(), 1);
    let mut indicator = Indicator::new();
    let processes = vec![false];
    let _halt = panic_fmt(&mut w, &mut indicator, b"fault", &processes);
    assert_eq!(w.config_count(), 1);
    assert!(indicator.is_active());
    assert_eq!(w.sent_bytes().as_slice(), b"boot ok fault-");
}

#[test]
fn panic_with_empty_process_table_sends_message_only() {
    let mut w = Writer::new();
    let mut indicator = Indicator::new();
    let processes: Vec<bool> = Vec::new();
    let _halt = panic_fmt(&mut w, &mut indicator, b"m", &processes);
    assert_eq!(w.sent_bytes().as_slice(), b"m");
    assert_eq!(w.config_count(), 1);
}

#[test]
fn indicator_lines_drive_both_ways() {
    let mut indicator = Indicator::new();
    indicator.set_active();
    assert!(indicator.is_active());
    indicator.set_inactive();
    assert!(!indicator.is_active());
}

use bringup::boot::{reset_handler, BootLayout};

#[test]
fn boot_copies_data_and_clears_zero_region() {
    let mut mem: Vec<u32> = vec![7, 8, 3, 4, 9, 9];
    let layout = BootLayout {
        stack_top: 0,
        source_start: 0,
        data_start: 2,
        data_end: 4,
        zero_start: 4,
        zero_end: 6,
    };
    let report = reset_handler(&mut mem, layout);
    assert_eq!(mem, vec![7, 8, 7, 8, 0, 0]);
    assert_eq!(report.words_copied, 2);
    assert_eq!(report.words_zeroed, 2);
}

#[test]
fn boot_zero_length_regions_are_no_ops() {
    let mut mem: Vec<u32> = vec![1, 2, 3, 4];
    let layout = BootLayout {
        stack_top: 0,
        source_start: 0,
        data_start: 2,
        data_end: 2,
        zero_start: 3,
        zero_end: 3,
    };
    let report = reset_handler(&mut mem, layout);
    assert_eq!(mem, vec![1, 2, 3, 4]);
    assert_eq!(report.words_copied, 0);
    assert_eq!(report.words_zeroed, 0);
}

#[test]
fn boot_with_coincident_source_skips_copy_but_zero_fills() {
    let mut mem: Vec<u32> = vec![5, 6, 7, 8, 9];
    let layout = BootLayout {
        stack_top: 0,
        source_start: 1,
        data_start: 1,
        data_end: 3,
        zero_start: 3,
        zero_end: 5,
    };
    let report = reset_handler(&mut mem, layout);
    assert_eq!(report.words_copied, 0);
    assert_eq!(mem, vec![5, 6, 7, 0, 0]);
    assert_eq!(report.words_zeroed, 2);
}

#[test]
fn boot_whole_memory_regions() {
    let mut mem: Vec<u32> = vec![11, 12, 0, 0];
    let layout = BootLayout {
        stack_top: 0,
        source_start: 0,
        data_start: 2,
        data_end: 4,
        zero_start: 0,
        zero_end: 2,
    };
    let report = reset_handler(&mut mem, layout);
    assert_eq!(mem, vec![0, 0, 11, 12]);
    assert_eq!(report.words_copied, 2);
    assert_eq!(report.words_zeroed, 2);
}

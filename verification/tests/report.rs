use kernel_bringup::report::{
    announcement_text, decimal_text, failure_text, ok_text, summary_text,
};

#[test]
fn numbers_are_written_in_decimal() {
    assert_eq!(decimal_text(0), "0");
    assert_eq!(decimal_text(7), "7");
    assert_eq!(decimal_text(9), "9");
    assert_eq!(decimal_text(10), "10");
    assert_eq!(decimal_text(42), "42");
    assert_eq!(decimal_text(100), "100");
    assert_eq!(decimal_text(1234567890), "1234567890");
    assert_eq!(decimal_text(usize::MAX), usize::MAX.to_string());
}

#[test]
fn decimal_agrees_with_the_standard_formatting() {
    for n in 0..2000usize {
        assert_eq!(decimal_text(n), n.to_string());
    }
}

#[test]
fn the_summary_line_counts_the_cases() {
    assert_eq!(summary_text(0), "Running 0 tests\n");
    assert_eq!(summary_text(1), "Running 1 tests\n");
    assert_eq!(summary_text(305), "Running 305 tests\n");
}

#[test]
fn a_case_is_announced_without_a_line_end() {
    assert_eq!(announcement_text("kernel::trivial_assertion"), "kernel::trivial_assertion...\t");
    assert_eq!(announcement_text(""), "...\t");
    assert!(!announcement_text("x").ends_with('\n'));
}

#[test]
fn the_ok_marker_ends_the_line() {
    assert_eq!(ok_text(), "[ok]\n");
}

#[test]
fn the_failure_report_holds_the_description() {
    assert_eq!(failure_text("stack overflow"), "[failed]\n\nError: stack overflow\n\n");
    assert_eq!(failure_text("naïve ünïcode"), "[failed]\n\nError: naïve ünïcode\n\n");
}

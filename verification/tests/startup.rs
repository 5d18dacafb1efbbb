use tiny4linux::text::is_blank_text;
use tiny4linux::{start_mode, WindowMode};

fn args(list: &[&str]) -> Vec<String> {
    list.iter().map(|s| s.to_string()).collect()
}

#[test]
fn no_flag_starts_dashboard() {
    assert_eq!(start_mode(&args(&["tiny4linux"])), WindowMode::Dashboard);
    assert_eq!(start_mode(&args(&[])), WindowMode::Dashboard);
}

#[test]
fn flag_selects_mode_ignoring_ascii_case() {
    assert_eq!(start_mode(&args(&["t", "--start-as", "widget"])), WindowMode::Widget);
    assert_eq!(start_mode(&args(&["t", "--start-as", "WIDGET"])), WindowMode::Widget);
    assert_eq!(start_mode(&args(&["t", "--start-as", "DashBoard"])), WindowMode::Dashboard);
}

#[test]
fn unknown_mode_is_invalid() {
    assert_eq!(start_mode(&args(&["t", "--start-as", "fullscreen"])), WindowMode::Invalid);
    assert_eq!(start_mode(&args(&["t", "--start-as", "widgets"])), WindowMode::Invalid);
}

#[test]
fn flag_without_value_starts_dashboard() {
    assert_eq!(start_mode(&args(&["t", "--start-as"])), WindowMode::Dashboard);
}

#[test]
fn first_flag_counts() {
    assert_eq!(
        start_mode(&args(&["t", "--start-as", "widget", "--start-as", "dashboard"])),
        WindowMode::Widget
    );
    assert_eq!(start_mode(&args(&["t", "--START-AS", "widget"])), WindowMode::Dashboard);
}

#[test]
fn blank_text() {
    assert!(is_blank_text(""));
    assert!(is_blank_text(" \t\n\u{3000}"));
    assert!(!is_blank_text("  a  "));
    assert!(!is_blank_text("Desk"));
}

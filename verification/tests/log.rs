use qemu_gui::config::HostOs;
use qemu_gui::gui::QemuGui;
use qemu_gui::log::{accepts, push_bounded, MAX_LOG};

#[test]
fn short_lines_are_appended() {
    let mut log = String::from("a\n");
    assert!(accepts(&log, "b\n"));
    push_bounded(&mut log, "b\n");
    assert_eq!(log, "a\nb\n");
}

#[test]
fn oldest_bytes_are_dropped_past_the_limit() {
    let mut log = "x".repeat(MAX_LOG - 3);
    push_bounded(&mut log, "0123456789");
    assert_eq!(log.len(), MAX_LOG);
    assert!(log.ends_with("0123456789"));
    assert_eq!(log, format!("{}0123456789", "x".repeat(MAX_LOG - 10)));
}

#[test]
fn log_never_passes_the_limit() {
    let mut g = QemuGui::new(HostOs::Linux, "", None);
    for i in 0..3000 {
        let line = format!("line {i}\n");
        assert!(g.log_accepts(&line));
        g.log_push(&line);
        assert!(g.log.len() <= MAX_LOG);
    }
    assert!(g.log.ends_with("line 2999\n"));
}

#[test]
fn cut_inside_a_character_is_refused() {
    // 'é' takes two bytes; dropping exactly one byte would split it.
    let log = format!("\u{e9}{}", "y".repeat(MAX_LOG - 2));
    assert!(!accepts(&log, "z"));
    assert!(accepts(&log, "zz"));
}

#[test]
fn message_longer_than_the_log_is_refused() {
    let msg = "m".repeat(MAX_LOG + 1);
    assert!(!accepts("", &msg));
    assert!(accepts("", &"m".repeat(MAX_LOG)));
}

use qemu_gui::text::{
    eq_ignore_case_text, i32_text, is_blank_text, is_whitespace, join_text, split_words, trim_text,
    u32_text,
};

#[test]
fn trim_removes_unicode_whitespace_at_both_ends() {
    assert_eq!(trim_text("  a b \t\n"), "a b");
    assert_eq!(trim_text("\u{3000}x\u{a0}"), "x");
    assert_eq!(trim_text("\u{2028}\u{85}"), "");
    assert_eq!(trim_text(""), "");
    assert_eq!(trim_text("abc"), "abc");
}

#[test]
fn trim_twice_is_trim_once() {
    for s in ["  x  ", "\t\ty y\u{2003}", "", "   ", "z"] {
        let once = trim_text(s);
        assert_eq!(trim_text(&once), once);
    }
}

#[test]
fn blank_means_only_whitespace() {
    assert!(is_blank_text(""));
    assert!(is_blank_text(" \t\r\n\u{a0}"));
    assert!(!is_blank_text("  /usr/bin/qemu "));
}

#[test]
fn whitespace_set_matches_std() {
    for u in 0u32..0x3100 {
        if let Some(c) = char::from_u32(u) {
            assert_eq!(is_whitespace(c), c.is_whitespace(), "U+{u:04X}");
        }
    }
}

#[test]
fn split_words_like_split_whitespace() {
    let cases = [
        " -msg  timestamp=on\t-no-hpet\n",
        "",
        "   ",
        "one",
        "a\u{3000}b\u{a0}c",
    ];
    for s in cases {
        let ours = split_words(s);
        let std: Vec<String> = s.split_whitespace().map(String::from).collect();
        assert_eq!(ours, std);
    }
    assert_eq!(split_words(" -msg  timestamp=on\t-no-hpet\n"), vec!["-msg", "timestamp=on", "-no-hpet"]);
}

#[test]
fn words_hold_no_whitespace() {
    for w in split_words(" a  bb\tccc \u{2009}d ") {
        assert!(!w.is_empty());
        assert!(!w.chars().any(char::is_whitespace));
    }
}

#[test]
fn join_puts_separator_between() {
    let parts = vec!["pc".to_string(), "accel=kvm".to_string(), "vmport=on".to_string()];
    assert_eq!(join_text(&parts, ","), "pc,accel=kvm,vmport=on");
    assert_eq!(join_text(&vec![], ","), "");
    assert_eq!(join_text(&vec!["x".to_string()], " "), "x");
}

#[test]
fn decimal_rendering() {
    assert_eq!(u32_text(0), "0");
    assert_eq!(u32_text(7), "7");
    assert_eq!(u32_text(4096), "4096");
    assert_eq!(u32_text(u32::MAX), "4294967295");
    assert_eq!(i32_text(0), "0");
    assert_eq!(i32_text(-1), "-1");
    assert_eq!(i32_text(137), "137");
    assert_eq!(i32_text(i32::MIN), "-2147483648");
    assert_eq!(i32_text(i32::MAX), "2147483647");
}

#[test]
fn ascii_case_is_ignored() {
    assert!(eq_ignore_case_text("GTK", "gtk"));
    assert!(eq_ignore_case_text("Io_Uring", "io_uring"));
    assert!(!eq_ignore_case_text("gtkx", "gtk"));
    assert!(!eq_ignore_case_text("\u{c9}", "\u{e9}"));
    assert!(eq_ignore_case_text("", ""));
}

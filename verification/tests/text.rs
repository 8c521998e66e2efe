use yt_tui::text::{clock, is_blank, is_white_space_char, push_decimal, push_two_digits, trim};

#[test]
fn trim_removes_unicode_white_space_at_both_ends() {
    assert_eq!(trim("  hello world \t\n"), "hello world");
    assert_eq!(trim("\u{3000}x\u{a0}"), "x");
    assert_eq!(trim("   "), "");
    assert_eq!(trim(""), "");
    assert_eq!(trim("a b"), "a b");
}

#[test]
fn trim_agrees_with_std() {
    for s in ["  x ", "\u{2028}y\u{85}", "\u{200b}z", " é ", "\r\n"] {
        assert_eq!(trim(s), s.trim());
    }
}

#[test]
fn white_space_agrees_with_std() {
    for u in 0u32..0x3100 {
        if let Some(c) = char::from_u32(u) {
            assert_eq!(is_white_space_char(c), c.is_whitespace(), "{u:x}");
        }
    }
}

#[test]
fn blank_texts() {
    assert!(is_blank(""));
    assert!(is_blank(" \t "));
    assert!(!is_blank(" a "));
}

#[test]
fn decimals() {
    let mut s = String::from("n=");
    push_decimal(&mut s, 0);
    assert_eq!(s, "n=0");
    let mut s = String::new();
    push_decimal(&mut s, u64::MAX);
    assert_eq!(s, u64::MAX.to_string());
    let mut s = String::new();
    push_two_digits(&mut s, 7);
    push_two_digits(&mut s, 42);
    push_two_digits(&mut s, 123);
    assert_eq!(s, "0742123");
}

#[test]
fn clock_format() {
    assert_eq!(clock(0), "00:00");
    assert_eq!(clock(59), "00:59");
    assert_eq!(clock(60), "01:00");
    assert_eq!(clock(u64::MAX), format!("{:02}:{:02}", u64::MAX / 60, u64::MAX % 60));
}

use rls_desktop::text::{
    chars_of, contains, push_decimal, push_hex_lower, same_text, starts_with, string_of,
    strip_trailing_char, trim, white_space,
};

#[test]
fn decimal_rendering() {
    let mut s = String::from("n=");
    push_decimal(&mut s, 0);
    assert_eq!(s, "n=0");
    let mut s = String::new();
    push_decimal(&mut s, 8080);
    assert_eq!(s, "8080");
    let mut s = String::new();
    push_decimal(&mut s, u64::MAX);
    assert_eq!(s, u64::MAX.to_string());
}

#[test]
fn hex_rendering_is_two_lower_digits_per_byte() {
    let mut s = String::new();
    push_hex_lower(&mut s, &[0x00, 0x0f, 0xab, 0xff]);
    assert_eq!(s, "000fabff");
}

#[test]
fn trim_matches_std_trim() {
    for t in ["", "  ", " a ", "\ta b\n", "\u{3000}x\u{200a}", "no-space", "\u{85}y\u{2029}"] {
        assert_eq!(trim(t), t.trim());
    }
}

#[test]
fn white_space_matches_std() {
    for c in ['\t', '\n', ' ', '\u{85}', '\u{a0}', '\u{1680}', '\u{2000}', '\u{200a}', '\u{2028}', '\u{2029}', '\u{202f}', '\u{205f}', '\u{3000}', 'a', '\u{200b}', '\u{180e}', '.'] {
        assert_eq!(white_space(c), c.is_whitespace(), "{:?}", c);
    }
}

#[test]
fn strip_trailing_matches_std() {
    for t in ["box.ts.net.", "a..", "...", "", "x"] {
        assert_eq!(strip_trailing_char(t, '.'), t.trim_end_matches('.'));
    }
}

#[test]
fn prefix_and_substring_tests() {
    assert!(starts_with("http://x", "http://"));
    assert!(!starts_with("htt", "http://"));
    assert!(contains("https 127.0.0.1:7200 (Funnel on)", "127.0.0.1:7200"));
    assert!(!contains("127.0.0.1:720", "127.0.0.1:7200"));
    assert!(contains("abc", ""));
    assert!(same_text("Running", "Running"));
    assert!(!same_text("Running", "Stopped"));
}

#[test]
fn chars_round_trip() {
    let v = chars_of("héllo");
    assert_eq!(v, vec!['h', 'é', 'l', 'l', 'o']);
    assert_eq!(string_of(&v), "héllo");
}

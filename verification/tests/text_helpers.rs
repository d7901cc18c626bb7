use unsafe_space::text;

#[test]
fn decimal_texts() {
    assert_eq!(text::u32_text(0), "0");
    assert_eq!(text::u32_text(10), "10");
    assert_eq!(text::u32_text(4294967295), "4294967295");
    assert_eq!(text::i64_text(-1), "-1");
    assert_eq!(text::i64_text(i64::MIN), i64::MIN.to_string());
    assert_eq!(text::i64_text(i64::MAX), i64::MAX.to_string());
    for n in [1u32, 9, 99, 100, 12345, 1000000] {
        assert_eq!(text::u32_text(n), n.to_string());
    }
}

#[test]
fn characters() {
    assert_eq!(text::chars_of("aé€😀"), vec!['a', 'é', '€', '😀']);
    assert!(text::ascii_ws('\x0C'));
    assert!(!text::ascii_ws('\x0B'));
    assert!(!text::ascii_ws('\u{a0}'));
    for c in ['\t', '\n', '\x0B', ' ', '\u{85}', '\u{a0}', '\u{1680}', '\u{2000}', '\u{200a}', '\u{2028}', '\u{202f}', '\u{3000}', 'a', '\u{200b}', '\u{feff}'] {
        assert_eq!(text::unicode_ws(c), c.is_whitespace(), "{:?}", c);
    }
}

#[test]
fn whitespace_matches_std_everywhere() {
    for u in 0u32..=0x10FFFF {
        if let Some(c) = char::from_u32(u) {
            assert_eq!(text::unicode_ws(c), c.is_whitespace(), "{:?}", c);
            assert_eq!(text::ascii_ws(c), c.is_ascii_whitespace(), "{:?}", c);
        }
    }
}

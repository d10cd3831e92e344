use speech_relay::text::{chars_of, is_white_space, trim_text};

#[test]
fn ascii_white_space_is_recognized() {
    for c in [' ', '\t', '\n', '\r', '\u{0B}', '\u{0C}'] {
        assert!(is_white_space(c), "{:?}", c);
    }
    for c in ['a', '0', '_', '\u{08}', '\u{0E}', '\u{1F}', '!', '\u{7F}'] {
        assert!(!is_white_space(c), "{:?}", c);
    }
}

#[test]
fn white_space_agrees_with_the_standard_library_everywhere() {
    let mut n: u32 = 0;
    while n <= 0x10FFFF {
        if let Some(c) = char::from_u32(n) {
            assert_eq!(is_white_space(c), c.is_whitespace(), "U+{:04X}", n);
        }
        n += 1;
    }
}

#[test]
fn chars_of_lists_the_characters() {
    assert_eq!(chars_of(""), Vec::<char>::new());
    assert_eq!(chars_of("aé語"), vec!['a', 'é', '語']);
}

#[test]
fn trim_text_strips_both_ends_only() {
    assert_eq!(trim_text("  hello world \n"), "hello world");
    assert_eq!(trim_text("hello"), "hello");
    assert_eq!(trim_text(""), "");
    assert_eq!(trim_text(" \t\r\n"), "");
    assert_eq!(trim_text("\u{3000}こんにちは\u{2003}"), "こんにちは");
    assert_eq!(trim_text("a b"), "a b");
}

#[test]
fn trim_text_agrees_with_the_standard_library() {
    for s in ["", " ", "x", " x", "x ", " x y ", "\u{85}x\u{A0}", "\u{200B}x", "\u{FEFF}x "] {
        assert_eq!(trim_text(s), s.trim(), "{:?}", s);
    }
}

use notes_bot::text::{
    escape_html_str, exceeds_bytes, i64_to_string, is_white_space_char, trim_str, u64_to_string,
};

#[test]
fn decimal_rendering() {
    assert_eq!(i64_to_string(0), "0");
    assert_eq!(i64_to_string(7), "7");
    assert_eq!(i64_to_string(-42), "-42");
    assert_eq!(i64_to_string(1234567890), "1234567890");
    assert_eq!(i64_to_string(i64::MIN), i64::MIN.to_string());
    assert_eq!(i64_to_string(i64::MAX), i64::MAX.to_string());
    assert_eq!(u64_to_string(u64::MAX), u64::MAX.to_string());
    assert_eq!(u64_to_string(10), "10");
}

#[test]
fn white_space_matches_std_on_every_char() {
    for u in 0u32..=0x10ffff {
        if let Some(c) = char::from_u32(u) {
            assert_eq!(is_white_space_char(c), c.is_whitespace(), "char {:#x}", u);
        }
    }
}

#[test]
fn trim_matches_std() {
    let samples = [
        "",
        "   ",
        "  hello  ",
        "\t\nЗаметка\u{3000}",
        "\u{a0}a b\u{2028}",
        "no-space",
        " \u{85}x\u{200a} ",
        "a\u{200b}",
    ];
    for s in samples.iter() {
        assert_eq!(trim_str(s), s.trim(), "sample {:?}", s);
    }
}

#[test]
fn trim_is_idempotent() {
    let once = trim_str("  \t двойной  пробел \n");
    assert_eq!(once, "двойной  пробел");
    assert_eq!(trim_str(&once), once);
}

#[test]
fn escape_html_replaces_the_three_special_characters() {
    assert_eq!(escape_html_str("a<b>&c"), "a&lt;b&gt;&amp;c");
    assert_eq!(escape_html_str("plain \"text\""), "plain \"text\"");
    assert_eq!(escape_html_str("&amp;"), "&amp;amp;");
    assert_eq!(escape_html_str(""), "");
    let s = "<b>Тег & 'кавычки'</b>";
    assert_eq!(escape_html_str(s), teloxide::utils::html::escape(s));
}

#[test]
fn escaped_text_has_no_angle_brackets() {
    let e = escape_html_str("<<>> <script>alert(1)</script>");
    assert!(!e.contains('<') && !e.contains('>'));
}

#[test]
fn byte_length_limit() {
    assert!(!exceeds_bytes("abc", 3));
    assert!(exceeds_bytes("abcd", 3));
    // two bytes per Cyrillic letter
    assert!(!exceeds_bytes("аб", 4));
    assert!(exceeds_bytes("абв", 5));
    assert!(!exceeds_bytes("", 0));
    assert!(exceeds_bytes("😀", 3));
}

#[test]
fn escaping_keeps_different_texts_apart() {
    assert_ne!(escape_html_str("&lt;"), escape_html_str("<"));
    assert_eq!(escape_html_str("&lt;"), "&amp;lt;");
    assert_eq!(escape_html_str("<"), "&lt;");
}

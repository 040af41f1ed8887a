use azure_verify::percent::encode_path_segment;
use azure_verify::text::{
    chars_of, joined, decimal_text, shown_text, text_eq, trims_to_nothing,
};

#[test]
fn white_space_is_what_is_trimmed() {
    for c in '\u{0}'..=char::MAX {
        let listed = matches!(
            c,
            '\u{9}'..='\u{d}'
                | ' '
                | '\u{85}'
                | '\u{a0}'
                | '\u{1680}'
                | '\u{2000}'..='\u{200a}'
                | '\u{2028}'
                | '\u{2029}'
                | '\u{202f}'
                | '\u{205f}'
                | '\u{3000}'
        );
        assert_eq!(trims_to_nothing(&c.to_string()), listed, "{c:?}");
    }
}

#[test]
fn blank_texts() {
    assert!(trims_to_nothing(""));
    assert!(trims_to_nothing(" \t\r\n"));
    assert!(!trims_to_nothing(" x "));
}

#[test]
fn characters_and_equality() {
    assert_eq!(chars_of("a\u{1f600}b"), vec!['a', '\u{1f600}', 'b']);
    assert!(text_eq("ab", "ab"));
    assert!(!text_eq("ab", "aB"));
    assert_eq!(joined("ab", "c"), "abc");
}

#[test]
fn decimal_notation() {
    for n in [0, 7, 10, 99, 100, 1203, u64::MAX] {
        assert_eq!(decimal_text(n), n.to_string());
    }
}

#[test]
fn absent_texts_are_shown() {
    assert_eq!(shown_text(&None), "<none>");
    assert_eq!(shown_text(&Some("x".to_owned())), "x");
}

#[test]
fn segments_are_encoded() {
    assert_eq!(encode_path_segment(""), "");
    assert_eq!(encode_path_segment("AZaz09-._~"), "AZaz09-._~");
    assert_eq!(encode_path_segment("a/b?c#d%e f"), "a%2Fb%3Fc%23d%25e%20f");
    assert_eq!(encode_path_segment("\u{e4}\u{20ac}"), "%C3%A4%E2%82%AC");
    assert_eq!(encode_path_segment("\u{0}\u{7f}"), "%00%7F");
    assert_eq!(encode_path_segment("..@:"), "..%40%3A");
}

#[test]
fn every_byte_is_encoded_one_way() {
    let mut seen: Vec<String> = Vec::new();
    for b in 0u8..128 {
        let c = b as char;
        let encoded = encode_path_segment(&c.to_string());
        if c.is_ascii_alphanumeric() || "-._~".contains(c) {
            assert_eq!(encoded, c.to_string());
        } else {
            assert_eq!(encoded, format!("%{b:02X}"));
        }
        assert!(!seen.contains(&encoded));
        seen.push(encoded);
    }
}

use download_orchestrator::text::{
    chars_of, decimal_text, is_blank, is_whitespace, joined, same_text, split_lines, trim,
};

#[test]
fn white_space_is_what_unicode_calls_white_space() {
    for code in 0u32..0x11_0000 {
        if let Some(c) = char::from_u32(code) {
            assert_eq!(is_whitespace(c), c.is_whitespace(), "U+{:04X}", code);
        }
    }
}

#[test]
fn trim_removes_surrounding_white_space_only() {
    assert_eq!(trim("  My  Title \r\n"), "My  Title");
    assert_eq!(trim("\u{3000}a b\u{a0}"), "a b");
    assert_eq!(trim("x"), "x");
}

#[test]
fn trim_of_blank_text_is_empty() {
    assert_eq!(trim(""), "");
    assert_eq!(trim(" \t\n "), "");
}

#[test]
fn trim_agrees_with_the_standard_library() {
    for sample in ["", " ", "a", " a", "a ", " a b ", "\n\ta\u{2003}", "é \u{85}", "\u{200b} x"] {
        assert_eq!(trim(sample), sample.trim());
    }
}

#[test]
fn blank_means_nothing_but_white_space() {
    assert!(is_blank(""));
    assert!(is_blank(" \t\r\n\u{2028}"));
    assert!(!is_blank(" . "));
    assert!(!is_blank("{}"));
}

#[test]
fn lines_end_at_line_feeds() {
    assert_eq!(split_lines("a\nb\nc"), vec!["a", "b", "c"]);
    assert_eq!(split_lines("a\n\nb"), vec!["a", "", "b"]);
}

#[test]
fn a_final_line_ending_opens_no_further_line() {
    assert_eq!(split_lines("a\n"), vec!["a"]);
    assert_eq!(split_lines("\n"), vec![""]);
    assert!(split_lines("").is_empty());
}

#[test]
fn a_carriage_return_before_a_line_feed_is_dropped() {
    assert_eq!(split_lines("a\r\nb\r\n"), vec!["a", "b"]);
    assert_eq!(split_lines("a\rb\n"), vec!["a\rb"]);
    assert_eq!(split_lines("a\r"), vec!["a\r"]);
    assert_eq!(split_lines("\r\n"), vec![""]);
}

#[test]
fn lines_agree_with_the_standard_library() {
    for sample in ["", "\n", "a", "a\n", "a\nb", "a\r\nb\r", "\r\n\r\n", "x\n\ny\n", "\r", "é\n漢字"] {
        let expected: Vec<String> = sample.lines().map(String::from).collect();
        assert_eq!(split_lines(sample), expected, "{:?}", sample);
    }
}

#[test]
fn decimal_text_has_no_leading_zeros() {
    assert_eq!(decimal_text(0), "0");
    assert_eq!(decimal_text(7), "7");
    assert_eq!(decimal_text(10), "10");
    assert_eq!(decimal_text(25), "25");
    assert_eq!(decimal_text(1_000_000), "1000000");
    assert_eq!(decimal_text(u64::MAX), "18446744073709551615");
}

#[test]
fn characters_one_by_one() {
    assert_eq!(chars_of("héllo"), vec!['h', 'é', 'l', 'l', 'o']);
    assert_eq!(chars_of("日本"), vec!['日', '本']);
    assert!(chars_of("").is_empty());
}

#[test]
fn same_text_compares_character_by_character() {
    assert!(same_text("audio", "audio"));
    assert!(same_text("", ""));
    assert!(!same_text("audio", "audi"));
    assert!(!same_text("audio", "audip"));
    assert!(!same_text("audio", "Audio"));
}

#[test]
fn joined_puts_left_before_right() {
    assert_eq!(joined("ab", "cd"), "abcd");
    assert_eq!(joined("", "x"), "x");
    assert_eq!(joined("x", ""), "x");
}

#[test]
fn lines_and_trim_agree_with_the_standard_library_on_many_texts() {
    let alphabet = ['a', ' ', '\n', '\r', '\t', 'é', '\u{3000}', '\u{85}', '{', '\u{200b}'];
    let mut state: u64 = 0x9E37_79B9_7F4A_7C15;
    for _ in 0..20_000 {
        state ^= state << 13;
        state ^= state >> 7;
        state ^= state << 17;
        let mut bits = state;
        let length = (bits % 9) as usize;
        bits /= 9;
        let mut sample = String::new();
        for _ in 0..length {
            sample.push(alphabet[(bits % 10) as usize]);
            bits /= 10;
        }
        let expected: Vec<String> = sample.lines().map(String::from).collect();
        assert_eq!(split_lines(&sample), expected, "{:?}", sample);
        assert_eq!(trim(&sample), sample.trim(), "{:?}", sample);
        assert_eq!(is_blank(&sample), sample.trim().is_empty(), "{:?}", sample);
    }
}

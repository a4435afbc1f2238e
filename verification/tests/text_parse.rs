use kestrel::text_parse::{parse_u64, split_once, text_lines, text_words, trim_text};

#[test]
fn lines_follow_str_lines() {
    for text in ["", "a", "a\n", "a\r\nb", "a\n\nb\n", "\r", "x\r\n\r\n"] {
        let expected: Vec<String> = text.lines().map(str::to_owned).collect();
        assert_eq!(text_lines(text), expected, "{text:?}");
    }
}

#[test]
fn words_follow_split_whitespace() {
    for text in ["", "  a  b ", "a\tb\u{3000}c", "one"] {
        let expected: Vec<String> = text.split_whitespace().map(str::to_owned).collect();
        assert_eq!(text_words(text), expected, "{text:?}");
    }
}

#[test]
fn numbers_follow_from_str() {
    for text in ["0", "+5", "18446744073709551615", "18446744073709551616", "", "+", "-1", "1 2", "007"] {
        assert_eq!(parse_u64(text), text.parse::<u64>().ok(), "{text:?}");
    }
}

#[test]
fn split_and_trim_follow_str() {
    assert_eq!(
        split_once("key: value: more", ':'),
        Some(("key".to_string(), " value: more".to_string()))
    );
    assert_eq!(split_once("none", ':'), None);
    assert_eq!(trim_text("\u{a0} padded \n"), "padded");
}

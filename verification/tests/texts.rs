use dikt::text::{
    contains, decimal, decimal_signed, ends_with, hex_padded, hexadecimal, is_blank, is_whitespace,
    join_path, list_contains, replace, split_words, starts_with, strip_suffix, trim, trim_end_char,
    trim_end_matches,
};
use dikt::text_utils::{convert_chinese_variant, converted_or_kept, chinese_variant, ChineseVariant};

#[test]
fn white_space_is_what_unicode_says() {
    for c in '\0'..=char::MAX {
        assert_eq!(is_whitespace(c), c.is_whitespace(), "{:?}", c);
    }
}

#[test]
fn trimming_is_that_of_the_standard_library() {
    for s in ["", "  a b ", "\u{3000}x\u{a0}", "\n\t", "abc"] {
        assert_eq!(trim(s), s.trim());
        assert_eq!(is_blank(s), s.trim().is_empty());
    }
}

#[test]
fn searching_is_that_of_the_standard_library() {
    for (s, p) in [("hello", "ll"), ("hello", "lo!"), ("", ""), ("aaa", "aa"), ("a", "abc")] {
        assert_eq!(contains(s, p), s.contains(p));
        assert_eq!(starts_with(s, p), s.starts_with(p));
        assert_eq!(ends_with(s, p), s.ends_with(p));
        assert_eq!(strip_suffix(s, p), s.strip_suffix(p).map(|t| t.to_string()));
    }
}

#[test]
fn replacing_is_that_of_the_standard_library() {
    for (s, p, t) in [("a${output}b", "${output}", "x"), ("aaaa", "aa", "b"), ("abc", "z", "y")] {
        assert_eq!(replace(s, p, t), s.replace(p, t));
    }
}

#[test]
fn numbers_are_written_as_usual() {
    for n in [0u64, 7, 10, 12345, u64::MAX] {
        assert_eq!(decimal(n), n.to_string());
        assert_eq!(hexadecimal(n), format!("{:x}", n));
    }
    assert_eq!(hex_padded(0xab, 4), "00ab");
    for n in [0i64, -1, 42, i64::MIN, i64::MAX] {
        assert_eq!(decimal_signed(n), n.to_string());
    }
}

#[test]
fn cutting_and_joining() {
    assert_eq!(trim_end_char("http://x//", '/'), "http://x");
    assert_eq!(trim_end_matches("model.bin.bin", ".bin"), "model");
    assert_eq!(split_words("a  b"), vec!["a".to_string(), String::new(), "b".to_string()]);
    assert_eq!(join_path("/data", "models"), "/data/models");
    assert_eq!(join_path("/data/", "models"), "/data/models");
    assert!(list_contains(&vec!["a".to_string(), "b".to_string()], "b"));
    assert!(!list_contains(&vec!["a".to_string()], "b"));
}

#[test]
fn chinese_is_converted_as_the_language_asks() {
    assert_eq!(chinese_variant("zh-Hans"), Some(ChineseVariant::Simplified));
    assert_eq!(chinese_variant("zh-Hant"), Some(ChineseVariant::Traditional));
    assert_eq!(chinese_variant("zh"), None);
    assert_eq!(convert_chinese_variant("漢語", "zh-Hans"), "汉语");
    assert_eq!(convert_chinese_variant("汉语", "zh-Hant"), "漢語");
    assert_eq!(convert_chinese_variant("汉语", "en"), "汉语");
    assert_eq!(converted_or_kept("a", None), "a");
    assert_eq!(converted_or_kept("a", Some("b".to_string())), "b");
}

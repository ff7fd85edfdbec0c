use autonous::text::{
    eq_ignore_ascii_case_str, format_u64, format_u64_padded, parse_i64, parse_u64, parse_usize,
    replace_newlines, str_eq, trim_str, truncate_for_telegram,
};

#[test]
fn truncation_counts_characters_not_bytes() {
    assert_eq!(truncate_for_telegram("hello", 3), "hel");
    assert_eq!(truncate_for_telegram("hello", 10), "hello");
    assert_eq!(truncate_for_telegram("αβγδ", 2), "αβ");
    assert_eq!(truncate_for_telegram("任务处理失败", 4), "任务处理");
    assert_eq!(truncate_for_telegram("", 5), "");
    assert_eq!(truncate_for_telegram("abc", 0), "");
}

#[test]
fn string_equality_is_character_exact() {
    assert!(str_eq("abc", "abc"));
    assert!(!str_eq("abc", "abd"));
    assert!(!str_eq("abc", "ab"));
    assert!(str_eq("", ""));
    assert!(str_eq("任务", "任务"));
}

#[test]
fn case_insensitive_equality_folds_ascii_only() {
    assert!(eq_ignore_ascii_case_str("TRUE", "true"));
    assert!(eq_ignore_ascii_case_str("TrUe", "true"));
    assert!(!eq_ignore_ascii_case_str("truth", "true"));
    assert!(eq_ignore_ascii_case_str("", ""));
    assert!(eq_ignore_ascii_case_str("任务A", "任务a"));
    assert!(!eq_ignore_ascii_case_str("任务", "任勞"));
}

#[test]
fn decimal_formatting_is_exact() {
    assert_eq!(format_u64(0), "0");
    assert_eq!(format_u64(7), "7");
    assert_eq!(format_u64(1234567890123456789), "1234567890123456789");
    assert_eq!(format_u64(u64::MAX), "18446744073709551615");
}

#[test]
fn padded_formatting_keeps_long_values_whole() {
    assert_eq!(format_u64_padded(7, 6), "000007");
    assert_eq!(format_u64_padded(123456, 6), "123456");
    assert_eq!(format_u64_padded(1234567, 6), "1234567");
    assert_eq!(format_u64_padded(0, 3), "000");
    assert_eq!(format_u64_padded(5, 0), "5");
}

#[test]
fn unsigned_parsing_matches_the_standard_grammar() {
    assert_eq!(parse_u64("0"), Some(0));
    assert_eq!(parse_u64("+42"), Some(42));
    assert_eq!(parse_u64("18446744073709551615"), Some(u64::MAX));
    assert_eq!(parse_u64("18446744073709551616"), None);
    assert_eq!(parse_u64(""), None);
    assert_eq!(parse_u64("+"), None);
    assert_eq!(parse_u64("-1"), None);
    assert_eq!(parse_u64("12a"), None);
    assert_eq!(parse_u64(" 12"), None);
    assert_eq!(parse_u64("007"), Some(7));
}

#[test]
fn signed_parsing_honours_both_range_ends() {
    assert_eq!(parse_i64("-9223372036854775808"), Some(i64::MIN));
    assert_eq!(parse_i64("-9223372036854775809"), None);
    assert_eq!(parse_i64("9223372036854775807"), Some(i64::MAX));
    assert_eq!(parse_i64("9223372036854775808"), None);
    assert_eq!(parse_i64("+5"), Some(5));
    assert_eq!(parse_i64("-0"), Some(0));
    assert_eq!(parse_i64("--1"), None);
    assert_eq!(parse_i64(""), None);
}

#[test]
fn machine_word_parsing_checks_its_own_range() {
    assert_eq!(parse_usize("50"), Some(50));
    assert_eq!(parse_usize("bad"), None);
    assert_eq!(parse_usize("0"), Some(0));
}

#[test]
fn trimming_strips_unicode_white_space() {
    assert_eq!(trim_str("  x  "), "x");
    assert_eq!(trim_str("\t\r\nabc\n"), "abc");
    assert_eq!(trim_str("\u{3000}中\u{00a0}"), "中");
    assert_eq!(trim_str("   "), "");
    assert_eq!(trim_str(""), "");
    assert_eq!(trim_str("a b"), "a b");
}

#[test]
fn newline_replacement_touches_only_line_breaks() {
    assert_eq!(replace_newlines("a\nb\nc"), "a b c");
    assert_eq!(replace_newlines("no breaks"), "no breaks");
    assert_eq!(replace_newlines("\n"), " ");
    assert_eq!(replace_newlines(""), "");
    assert_eq!(replace_newlines("a\r\nb"), "a\r b");
}

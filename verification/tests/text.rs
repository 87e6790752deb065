use glm_plan_usage::text::{
    concat_str, contains_folded, contains_str, equals_folded, find_text, i64_text, join_strings,
    replace_str, same_text, starts_with_str, two_digit_str, u64_text,
};
use glm_plan_usage::timefmt::{clock_str, format_reset_time};

#[test]
fn decimal_rendering() {
    assert_eq!(u64_text(0), "0");
    assert_eq!(u64_text(7), "7");
    assert_eq!(u64_text(93), "93");
    assert_eq!(u64_text(1200), "1200");
    assert_eq!(u64_text(u64::MAX), "18446744073709551615");
    assert_eq!(i64_text(-42), "-42");
    assert_eq!(i64_text(0), "0");
    assert_eq!(i64_text(i64::MIN), "-9223372036854775808");
    assert_eq!(i64_text(i64::MAX), "9223372036854775807");
    assert_eq!(two_digit_str(5), "05");
    assert_eq!(two_digit_str(0), "00");
    assert_eq!(two_digit_str(42), "42");
}

#[test]
fn clock_rendering() {
    assert_eq!(clock_str(23, 0), "23:00");
    assert_eq!(clock_str(9, 5), "09:05");
    assert_eq!(clock_str(0, 0), "00:00");
}

#[test]
fn reset_time_reads_as_clock() {
    let shown = format_reset_time(1771073738).expect("local time of a recent instant");
    let (h, m) = shown.split_once(':').expect("H:MM");
    assert!(h.parse::<u32>().unwrap() < 24);
    assert_eq!(m.len(), 2);
    assert!(m.parse::<u32>().unwrap() < 60);
    assert_ne!(shown, "1771073738");
}

#[test]
fn searching() {
    assert_eq!(find_text("https://api.kimi.com/coding", "://"), Some(5));
    assert_eq!(find_text("abcabc", "bc"), Some(1));
    assert_eq!(find_text("abc", "x"), None);
    assert_eq!(find_text("abc", ""), Some(0));
    assert_eq!(find_text("héllo/x", "/"), Some(5));
    assert!(contains_str("https://open.bigmodel.cn/api", "bigmodel.cn"));
    assert!(!contains_str("https://example.com", "zhipu"));
    assert!(starts_with_str("MiniMax-M2", "MiniMax-M"));
    assert!(!starts_with_str("MiniMax", "MiniMax-M"));
    assert!(same_text("abc", "abc"));
    assert!(!same_text("abc", "abd"));
    assert!(!same_text("abc", "ab"));
}

#[test]
fn folding_letter_case() {
    assert!(equals_folded("LiTe", "lite"));
    assert!(!equals_folded("lites", "lite"));
    assert!(contains_folded("GLM-4.6", "glm"));
    assert!(contains_folded("zai/ChatGLM", "chatglm"));
    assert!(!contains_folded("gpt-5", "glm"));
}

#[test]
fn replacing() {
    assert_eq!(replace_str("https://open.bigmodel.cn/api/anthropic", "/api/anthropic", "/api"), "https://open.bigmodel.cn/api");
    assert_eq!(replace_str("aaa", "aa", "b"), "ba");
    assert_eq!(replace_str("x/anthropic/y/anthropic", "/anthropic", ""), "x/y");
    assert_eq!(replace_str("plain", "/anthropic", ""), "plain");
    assert_eq!(replace_str("abc", "", "x"), "abc".replace("", "x"));
    assert_eq!(replace_str("", "", "x"), "x");
    assert_eq!(replace_str("é", "", "-"), "-é-");
}

#[test]
fn joining() {
    let parts = vec!["a".to_string(), "b".to_string(), "c".to_string()];
    assert_eq!(join_strings(&parts, " · "), "a · b · c");
    assert_eq!(join_strings(&vec![], " | "), "");
    assert_eq!(join_strings(&vec!["one".to_string()], " | "), "one");
    assert_eq!(concat_str("ab", "cd"), "abcd");
}

#[test]
fn reset_time_known_within_chrono_range() {
    assert!(format_reset_time(0).is_some());
    assert!(format_reset_time(1771073738).is_some());
    assert!(format_reset_time(8210266876799).is_some());
    assert!(format_reset_time(-8334601228800).is_some());
    assert_eq!(format_reset_time(8210266876800), None);
    assert_eq!(format_reset_time(-8334601228801), None);
    assert_eq!(format_reset_time(i64::MAX), None);
    assert_eq!(format_reset_time(i64::MIN), None);
}

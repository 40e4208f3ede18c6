use tokimo_client_api::text::{
    base_name_of, eq_ignore_ascii_case, i64_to_string, join_strings, millis_to_secs,
    parse_i32, parse_i64, parse_u32, parse_u64, parse_u8, prefix_before, split_trimmed,
    trim_end_matches_char, trim_str, u64_to_string,
};

#[test]
fn unsigned_parsing_follows_from_str() {
    assert_eq!(parse_u64("42"), Some(42));
    assert_eq!(parse_u64("+42"), Some(42));
    assert_eq!(parse_u64("007"), Some(7));
    assert_eq!(parse_u64("18446744073709551615"), Some(u64::MAX));
    assert_eq!(parse_u64("18446744073709551616"), None);
    assert_eq!(parse_u64(""), None);
    assert_eq!(parse_u64("+"), None);
    assert_eq!(parse_u64("-1"), None);
    assert_eq!(parse_u64(" 1"), None);
    assert_eq!(parse_u32("4294967296"), None);
    assert_eq!(parse_u8("255"), Some(255));
    assert_eq!(parse_u8("256"), None);
    for v in ["0", "17", "+3", "99999999999999999999", "1a", "-0"] {
        assert_eq!(parse_u64(v), v.parse::<u64>().ok(), "{v}");
        assert_eq!(parse_u8(v), v.parse::<u8>().ok(), "{v}");
    }
}

#[test]
fn signed_parsing_follows_from_str() {
    assert_eq!(parse_i64("-9223372036854775808"), Some(i64::MIN));
    assert_eq!(parse_i64("9223372036854775807"), Some(i64::MAX));
    assert_eq!(parse_i64("9223372036854775808"), None);
    assert_eq!(parse_i64("-9223372036854775809"), None);
    assert_eq!(parse_i64("-"), None);
    assert_eq!(parse_i64("--1"), None);
    assert_eq!(parse_i32("-2147483648"), Some(i32::MIN));
    assert_eq!(parse_i32("2147483648"), None);
    for v in ["-0", "+0", "-17", "12x", "", "2024"] {
        assert_eq!(parse_i64(v), v.parse::<i64>().ok(), "{v}");
        assert_eq!(parse_i32(v), v.parse::<i32>().ok(), "{v}");
    }
}

#[test]
fn decimal_text() {
    assert_eq!(u64_to_string(0), "0");
    assert_eq!(u64_to_string(u64::MAX), u64::MAX.to_string());
    assert_eq!(i64_to_string(i64::MIN), i64::MIN.to_string());
    assert_eq!(i64_to_string(-305), "-305");
}

#[test]
fn trimming_and_splitting() {
    assert_eq!(trim_str(" \t\u{3000}x y\n\u{a0}"), "x y");
    assert_eq!(trim_str("   "), "");
    assert_eq!(trim_end_matches_char("a//", '/'), "a");
    assert_eq!(split_trimmed(" a, b ,", ','), vec!["a".to_string(), "b".to_string(), "".to_string()]);
    assert_eq!(split_trimmed("", ','), vec!["".to_string()]);
    assert_eq!(join_strings(&vec!["a".to_string(), "b".to_string()], ", "), "a, b");
    assert_eq!(join_strings(&vec![], ","), "");
    assert_eq!(prefix_before("2008-07-15", '-'), "2008");
    assert_eq!(prefix_before("2008", '-'), "2008");
}

#[test]
fn case_insensitive_equality_and_paths() {
    assert!(eq_ignore_ascii_case("Hello", "hELLO"));
    assert!(!eq_ignore_ascii_case("Straße", "STRASSE"));
    assert_eq!(base_name_of("/a/b/c.txt"), "c.txt");
    assert_eq!(base_name_of("c.txt"), "c.txt");
    assert_eq!(base_name_of("/a/b/.."), "/a/b/..");
    assert_eq!(base_name_of("/"), "/");
}

#[test]
fn millisecond_rounding() {
    assert_eq!(millis_to_secs(1999), 1);
    assert_eq!(millis_to_secs(-1999), -1);
    assert_eq!(millis_to_secs(i64::MIN), i64::MIN / 1000);
}

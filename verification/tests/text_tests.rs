use rust_api::text::{
    chars_of, string_of, decimal_string, parse_unsigned_max, find_chars, rfind_chars, split_once_chars,
    rsplit_once_chars, trim_chars, trim_end_char_chars, words_chars, join_chars, join_strings,
    replace_char_chars, contains_chars, starts_with_chars, ends_with_chars, push_decimal,
    push_decimal_u128,
};

fn cs(s: &str) -> Vec<char> {
    s.chars().collect()
}

fn st(v: &Vec<char>) -> String {
    v.iter().collect()
}

#[test]
fn chars_and_string_round_trip() {
    let v = chars_of("héllo 世界");
    assert_eq!(v, cs("héllo 世界"));
    assert_eq!(string_of(&v), "héllo 世界");
}

#[test]
fn decimal_writes_numbers() {
    assert_eq!(decimal_string(0), "0");
    assert_eq!(decimal_string(7), "7");
    assert_eq!(decimal_string(1234567890), "1234567890");
    assert_eq!(decimal_string(u64::MAX), "18446744073709551615");
    let mut v = cs("n=");
    push_decimal(&mut v, 42);
    assert_eq!(st(&v), "n=42");
    let mut w = Vec::new();
    push_decimal_u128(&mut w, 340282366920938463463374607431768211455u128);
    assert_eq!(st(&w), "340282366920938463463374607431768211455");
}

#[test]
fn parse_unsigned_reads_like_std() {
    assert_eq!(parse_unsigned_max(&cs("8080"), 65535), Some(8080));
    assert_eq!(parse_unsigned_max(&cs("+12"), 65535), Some(12));
    assert_eq!(parse_unsigned_max(&cs("65535"), 65535), Some(65535));
    assert_eq!(parse_unsigned_max(&cs("65536"), 65535), None);
    assert_eq!(parse_unsigned_max(&cs(""), 65535), None);
    assert_eq!(parse_unsigned_max(&cs("+"), 65535), None);
    assert_eq!(parse_unsigned_max(&cs("-1"), 65535), None);
    assert_eq!(parse_unsigned_max(&cs("1a"), 65535), None);
    assert_eq!(parse_unsigned_max(&cs(" 1"), 65535), None);
    assert_eq!(parse_unsigned_max(&cs("007"), 65535), Some(7));
    assert_eq!(parse_unsigned_max(&cs("18446744073709551615"), u64::MAX), Some(u64::MAX));
    assert_eq!(parse_unsigned_max(&cs("18446744073709551616"), u64::MAX), None);
}

#[test]
fn decimal_reads_back() {
    for n in [0u64, 9, 10, 99, 100, 65535, 123456789] {
        assert_eq!(parse_unsigned_max(&chars_of(&decimal_string(n)), u64::MAX), Some(n));
    }
}

#[test]
fn find_and_rfind() {
    assert_eq!(find_chars(&cs("abcabc"), &cs("bc")), Some(1));
    assert_eq!(rfind_chars(&cs("abcabc"), &cs("bc")), Some(4));
    assert_eq!(find_chars(&cs("abc"), &cs("x")), None);
    assert_eq!(rfind_chars(&cs("abc"), &cs("x")), None);
    assert_eq!(find_chars(&cs("abc"), &cs("")), Some(0));
    assert_eq!(rfind_chars(&cs("abc"), &cs("")), Some(3));
    assert!(contains_chars(&cs("favicon.ico"), &cs("icon")));
    assert!(!contains_chars(&cs("stylesheet"), &cs("icon")));
    assert!(starts_with_chars(&cs("https://x"), &cs("http")));
    assert!(!starts_with_chars(&cs("/x.ico"), &cs("http")));
    assert!(ends_with_chars(&cs("北京市"), &cs("市")));
    assert!(!ends_with_chars(&cs("北京"), &cs("市")));
}

#[test]
fn split_once_and_rsplit_once() {
    let (a, b) = split_once_chars(&cs("k=v=w"), &cs("=")).unwrap();
    assert_eq!((st(&a), st(&b)), ("k".to_string(), "v=w".to_string()));
    let (a, b) = rsplit_once_chars(&cs("k=v=w"), &cs("=")).unwrap();
    assert_eq!((st(&a), st(&b)), ("k=v".to_string(), "w".to_string()));
    assert!(split_once_chars(&cs("kv"), &cs("=")).is_none());
    assert!(rsplit_once_chars(&cs("kv"), &cs("=")).is_none());
}

#[test]
fn trimming() {
    assert_eq!(st(&trim_chars(&cs("  a b \t\n"))), "a b");
    assert_eq!(st(&trim_chars(&cs("\u{3000}全角\u{3000}"))), "全角");
    assert_eq!(st(&trim_chars(&cs("   "))), "");
    assert_eq!(st(&trim_end_char_chars(&cs("{},,,"), ',')), "{}");
    assert_eq!(st(&trim_end_char_chars(&cs(",a"), ',')), ",a");
}

#[test]
fn trimming_twice_is_trimming_once() {
    for s in ["  x  ", "x", "", " \t ", "a b  c"] {
        let once = trim_chars(&cs(s));
        assert_eq!(trim_chars(&once), once);
    }
}

#[test]
fn words_split_on_whitespace() {
    let w: Vec<String> = words_chars(&cs("  星期一 \n 06/02  ")).iter().map(st).collect();
    assert_eq!(w, vec!["星期一".to_string(), "06/02".to_string()]);
    assert!(words_chars(&cs("   ")).is_empty());
    assert!(words_chars(&cs("")).is_empty());
}

#[test]
fn joining() {
    let list = vec![cs("a"), cs("b"), cs("c")];
    assert_eq!(st(&join_chars(&list, &cs(", "))), "a, b, c");
    assert_eq!(st(&join_chars(&Vec::new(), &cs(", "))), "");
    let strs = vec!["x".to_string(), "y".to_string()];
    assert_eq!(st(&join_strings(&strs, " ")), "x y");
    assert_eq!(st(&join_strings(&strs, "")), "xy");
}

#[test]
fn replacing_characters() {
    assert_eq!(st(&replace_char_chars(&cs("2024/01/02"), '/', '-')), "2024-01-02");
    assert_eq!(st(&replace_char_chars(&cs("a/b"), 'x', 'y')), "a/b");
}

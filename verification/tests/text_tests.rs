use protify_server::text::{
    decimal_string, join, lines, parse_bool, parse_i32, parse_u16, parse_u32, parse_u8,
    split_char, split_once_char, split_whitespace, str_eq,
};

fn strings(items: &[&str]) -> Vec<String> {
    items.iter().map(|s| s.to_string()).collect()
}

#[test]
fn parse_u8_accepts_plain_and_signed_digits() {
    assert_eq!(parse_u8("0"), Some(0));
    assert_eq!(parse_u8("99"), Some(99));
    assert_eq!(parse_u8("+7"), Some(7));
    assert_eq!(parse_u8("255"), Some(255));
}

#[test]
fn parse_u8_refuses_overflow_and_garbage() {
    assert_eq!(parse_u8("256"), None);
    assert_eq!(parse_u8(""), None);
    assert_eq!(parse_u8("+"), None);
    assert_eq!(parse_u8("-1"), None);
    assert_eq!(parse_u8("1a"), None);
    assert_eq!(parse_u8(" 1"), None);
}

#[test]
fn parse_u16_and_u32_bounds() {
    assert_eq!(parse_u16("65535"), Some(65535));
    assert_eq!(parse_u16("65536"), None);
    assert_eq!(parse_u32("4294967295"), Some(4294967295));
    assert_eq!(parse_u32("4294967296"), None);
    assert_eq!(parse_u16("3306"), Some(3306));
}

#[test]
fn parse_i32_signs_and_bounds() {
    assert_eq!(parse_i32("-2147483648"), Some(i32::MIN));
    assert_eq!(parse_i32("2147483647"), Some(i32::MAX));
    assert_eq!(parse_i32("2147483648"), None);
    assert_eq!(parse_i32("-2147483649"), None);
    assert_eq!(parse_i32("-"), None);
    assert_eq!(parse_i32("+12"), Some(12));
    assert_eq!(parse_i32("-12"), Some(-12));
}

#[test]
fn parse_i32_agrees_with_std() {
    for text in ["0", "-0", "+0", "17", "-17", "007", "12x", "", "--1", "+-1", "99999999999"] {
        assert_eq!(parse_i32(text), text.parse::<i32>().ok(), "{}", text);
    }
}

#[test]
fn parse_bool_only_exact_words() {
    assert_eq!(parse_bool("true"), Some(true));
    assert_eq!(parse_bool("false"), Some(false));
    assert_eq!(parse_bool("True"), None);
    assert_eq!(parse_bool("1"), None);
}

#[test]
fn decimal_string_round_trip() {
    for n in [0u64, 1, 9, 10, 99, 100, 3306, u64::MAX] {
        let text = decimal_string(n);
        assert_eq!(text, n.to_string());
        assert_eq!(text.parse::<u64>().unwrap(), n);
    }
}

#[test]
fn split_char_keeps_empty_pieces() {
    assert_eq!(split_char("/test&value=1&othervalue=2", '&'), strings(&["/test", "value=1", "othervalue=2"]));
    assert_eq!(split_char("a::b", ':'), strings(&["a", "", "b"]));
    assert_eq!(split_char("", '&'), strings(&[""]));
    assert_eq!(split_char("&", '&'), strings(&["", ""]));
}

#[test]
fn split_once_char_at_first_occurrence() {
    assert_eq!(
        split_once_char("a=b=c", '='),
        Some(("a".to_string(), "b=c".to_string()))
    );
    assert_eq!(split_once_char("abc", '='), None);
}

#[test]
fn lines_agree_with_std() {
    for text in ["a\nb", "a\r\nb\r\n", "", "\n", "a\n\nb", "one\r", "x\ry\nz"] {
        let expected: Vec<String> = text.lines().map(|s| s.to_string()).collect();
        assert_eq!(lines(text), expected, "{:?}", text);
    }
}

#[test]
fn split_whitespace_agrees_with_std() {
    for text in ["GET /url HTTP/1.1", "  a\t b \n", "", "   ", "x\u{3000}y"] {
        let expected: Vec<String> = text.split_whitespace().map(|s| s.to_string()).collect();
        assert_eq!(split_whitespace(text), expected, "{:?}", text);
    }
}

#[test]
fn join_with_separator() {
    assert_eq!(join(&strings(&["a", "b", "c"]), ", "), "a, b, c");
    assert_eq!(join(&strings(&[]), ", "), "");
    assert_eq!(join(&strings(&["only"]), "\n"), "only");
}

#[test]
fn str_eq_compares_text() {
    assert!(str_eq("/store_showcase", "/store_showcase"));
    assert!(!str_eq("/store_showcase", "/store_showcase/"));
    assert!(!str_eq("", "a"));
}

use reddit_slideshow::text::{
    decimal_string, decode_amp, find_in, has_at, has_suffix, join, parse_bool,
    parse_u64, push_decimal, push_digits, same_text, to_chars,
};

fn chars(s: &str) -> Vec<char> {
    s.chars().collect()
}

#[test]
fn to_chars_keeps_every_character() {
    assert_eq!(to_chars(""), Vec::<char>::new());
    assert_eq!(to_chars("a&b"), vec!['a', '&', 'b']);
    assert_eq!(to_chars("héllo"), vec!['h', 'é', 'l', 'l', 'o']);
}

#[test]
fn has_at_compares_in_place() {
    let hay = chars("abcabc");
    assert!(has_at(&hay, 0, &chars("abc")));
    assert!(has_at(&hay, 3, &chars("abc")));
    assert!(!has_at(&hay, 1, &chars("abc")));
    assert!(!has_at(&hay, 4, &chars("abc")));
    assert!(has_at(&hay, 6, &chars("")));
    assert!(!has_at(&hay, 7, &chars("")));
}

#[test]
fn find_in_agrees_with_contains() {
    let cases = [
        ("https://i.imgur.com/x.gifv", "imgur", true),
        ("https://example.com/x.gifv", "imgur", false),
        ("imgu", "imgur", false),
        ("", "imgur", false),
        ("", "", true),
        ("abc", "", true),
        ("aab", "ab", true),
        ("xximgur", "imgur", true),
    ];
    for (hay, needle, expected) in cases {
        assert_eq!(find_in(&chars(hay), &chars(needle)), expected);
        assert_eq!(hay.contains(needle), expected);
    }
}

#[test]
fn has_suffix_agrees_with_ends_with() {
    let cases = [
        ("https://i.imgur.com/x.gifv", ".gifv", true),
        ("https://i.imgur.com/x.gifv?a", ".gifv", false),
        ("gifv", ".gifv", false),
        (".gifv", ".gifv", true),
        ("abc", "", true),
    ];
    for (hay, needle, expected) in cases {
        assert_eq!(has_suffix(&chars(hay), &chars(needle)), expected);
        assert_eq!(hay.ends_with(needle), expected);
    }
}

#[test]
fn same_text_is_equality() {
    assert!(same_text("t3", "t3"));
    assert!(!same_text("t3", "t1"));
    assert!(!same_text("t3", "t33"));
    assert!(!same_text("", "t3"));
    assert!(same_text("", ""));
}

#[test]
fn decode_amp_decodes_the_escaped_ampersand() {
    assert_eq!(decode_amp("https://x/y?a=1&amp;b=2"), "https://x/y?a=1&b=2");
}

#[test]
fn decode_amp_agrees_with_replace() {
    let cases = [
        "",
        "&",
        "&amp;",
        "&amp",
        "amp;",
        "&amp;&amp;",
        "&amp;amp;",
        "&&amp;;",
        "a&amp;b&amp;c",
        "&am&amp;p;",
        "x?a=1&b=2",
        "&AMP;",
        "é&amp;é",
    ];
    for case in cases {
        assert_eq!(decode_amp(case), case.replace("&amp;", "&"));
    }
}

#[test]
fn decode_amp_decodes_once() {
    assert_eq!(decode_amp("&amp;amp;"), "&amp;");
}

#[test]
fn join_puts_the_separator_between() {
    let none: Vec<String> = Vec::new();
    assert_eq!(join(&none, ", "), "");
    assert_eq!(join(&vec!["a".to_string()], ", "), "a");
    assert_eq!(join(&vec!["a".to_string(), "b".to_string(), "c".to_string()], ", "), "a, b, c");
    assert_eq!(join(&vec!["".to_string(), "".to_string()], "-"), "-");
}

#[test]
fn decimal_string_agrees_with_to_string() {
    for n in [0u64, 1, 9, 10, 11, 50, 99, 100, 12345, u64::MAX] {
        assert_eq!(decimal_string(n), n.to_string());
    }
    assert_eq!(decimal_string(50), "50");
}

#[test]
fn push_digits_appends() {
    let mut out = String::from("n=");
    push_digits(&mut out, 1080);
    assert_eq!(out, "n=1080");
}

#[test]
fn push_decimal_writes_the_sign() {
    for n in [0i32, 7, -7, 640, -640, i32::MAX, i32::MIN] {
        let mut out = String::new();
        push_decimal(&mut out, n);
        assert_eq!(out, n.to_string());
    }
    let mut out = String::from("w");
    push_decimal(&mut out, -12);
    assert_eq!(out, "w-12");
}

#[test]
fn parse_u64_reads_digits() {
    assert_eq!(parse_u64("0"), Some(0));
    assert_eq!(parse_u64("10"), Some(10));
    assert_eq!(parse_u64("+10"), Some(10));
    assert_eq!(parse_u64("007"), Some(7));
    assert_eq!(parse_u64("18446744073709551615"), Some(u64::MAX));
}

#[test]
fn parse_u64_rejects_everything_else() {
    assert_eq!(parse_u64(""), None);
    assert_eq!(parse_u64("+"), None);
    assert_eq!(parse_u64("-"), None);
    assert_eq!(parse_u64("-1"), None);
    assert_eq!(parse_u64("-0"), None);
    assert_eq!(parse_u64("++1"), None);
    assert_eq!(parse_u64("1+"), None);
    assert_eq!(parse_u64(" 1"), None);
    assert_eq!(parse_u64("1 "), None);
    assert_eq!(parse_u64("1_0"), None);
    assert_eq!(parse_u64("1.5"), None);
    assert_eq!(parse_u64("ten"), None);
    assert_eq!(parse_u64("١٢"), None);
    assert_eq!(parse_u64("18446744073709551616"), None);
    assert_eq!(parse_u64("99999999999999999999999"), None);
}

#[test]
fn parse_u64_agrees_with_parse() {
    let cases = [
        "", "+", "-", "0", "+0", "-0", "1", "42", "+42", "0042", "18446744073709551615",
        "18446744073709551616", "184467440737095516150", "4x", "x4", " 4", "4 ", "1e3", "0x10",
    ];
    for case in cases {
        assert_eq!(parse_u64(case), case.parse::<u64>().ok(), "{}", case);
    }
}

#[test]
fn parse_bool_reads_two_words() {
    assert_eq!(parse_bool("true"), Some(true));
    assert_eq!(parse_bool("false"), Some(false));
    for case in ["", "True", "FALSE", "1", "0", "true ", " false", "yes", "tru"] {
        assert_eq!(parse_bool(case), None);
        assert_eq!(parse_bool(case), case.parse::<bool>().ok());
    }
}

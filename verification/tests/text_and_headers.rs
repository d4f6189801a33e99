use rws::headers::{check_match, check_since, extract_header, HeaderEntry, HeaderError, Headers};
use rws::text::{last_index, parse_bool, parse_i64, split, starts_with, str_equal};

fn headers(entries: &[(&str, Option<&str>)]) -> Headers {
    Headers {
        entries: entries
            .iter()
            .map(|(n, v)| HeaderEntry { name: n.to_string(), value: v.map(|s| s.to_string()) })
            .collect(),
    }
}

#[test]
fn equality_and_prefixes() {
    assert!(str_equal("abc", "abc"));
    assert!(!str_equal("abc", "abd"));
    assert!(!str_equal("abc", "ab"));
    assert!(starts_with("/signup/x", "/signup"));
    assert!(starts_with("x", ""));
    assert!(!starts_with("/sign", "/signup"));
}

#[test]
fn parses_decimal_integers_like_std() {
    for s in ["0", "123", "+5", "-17", "9223372036854775807", "-9223372036854775808", "007"] {
        assert_eq!(parse_i64(s), s.parse::<i64>().ok(), "{}", s);
    }
    for s in ["", "+", "-", "12a", " 1", "9223372036854775808", "-9223372036854775809", "1.5", "٣"] {
        assert_eq!(parse_i64(s), None, "{}", s);
        assert!(s.parse::<i64>().is_err());
    }
}

#[test]
fn parses_booleans_like_std() {
    assert_eq!(parse_bool("true"), Some(true));
    assert_eq!(parse_bool("false"), Some(false));
    assert_eq!(parse_bool("True"), None);
    assert_eq!(parse_bool(""), None);
}

#[test]
fn splits_on_separator_like_std() {
    for s in ["/a/b", "", "a//", "/", "abc", "/create_bucket/photos"] {
        let expected: Vec<String> = s.split('/').map(|x| x.to_string()).collect();
        assert_eq!(split(s, '/'), expected, "{}", s);
    }
    for s in ["/a/b", "", "a//", "/", "abc"] {
        assert_eq!(split(s, '/').join("/"), s);
    }
    assert_eq!(last_index("a/b/c", '/'), Some(3));
    assert_eq!(last_index("abc", '/'), None);
}

#[test]
fn header_lookup_ignores_case_and_takes_first() {
    let h = headers(&[("if-match", Some("abc")), ("if-match", Some("def"))]);
    assert_eq!(extract_header(&h, "IF-MATCH"), Some("abc".to_string()));
    assert_eq!(extract_header(&h, "if-match"), Some("abc".to_string()));
    assert_eq!(extract_header(&h, "IF-NONE-MATCH"), None);
    let binary = headers(&[("if-match", None)]);
    assert_eq!(extract_header(&binary, "IF-MATCH"), None);
}

#[test]
fn entity_tag_conditions() {
    let none = headers(&[]);
    assert_eq!(check_match(&none, "e".to_string()), Ok(None));
    let m = headers(&[("if-match", Some("e"))]);
    assert_eq!(check_match(&m, "e".to_string()), Ok(Some(true)));
    assert_eq!(check_match(&m, "f".to_string()), Ok(Some(false)));
    let nm = headers(&[("if-none-match", Some("e"))]);
    assert_eq!(check_match(&nm, "e".to_string()), Ok(Some(false)));
    assert_eq!(check_match(&nm, "f".to_string()), Ok(Some(true)));
    // IF-MATCH is consulted before IF-NONE-MATCH.
    let both = headers(&[("if-none-match", Some("e")), ("if-match", Some("e"))]);
    assert_eq!(check_match(&both, "e".to_string()), Ok(Some(true)));
}

#[test]
fn time_conditions() {
    let none = headers(&[]);
    assert_eq!(check_since(&none, 10), Ok(None));
    let ms = headers(&[("if-modified-since", Some("11"))]);
    assert_eq!(check_since(&ms, 10), Ok(Some(true)));
    assert_eq!(check_since(&ms, 11), Ok(Some(false)));
    let us = headers(&[("if-unmodified-since", Some("9"))]);
    assert_eq!(check_since(&us, 10), Ok(Some(true)));
    assert_eq!(check_since(&us, 9), Ok(Some(false)));
    let bad = headers(&[("if-modified-since", Some("yesterday"))]);
    assert_eq!(check_since(&bad, 10), Err(HeaderError::InvalidTimestamp));
    let bad2 = headers(&[("if-unmodified-since", Some(""))]);
    assert_eq!(check_since(&bad2, 10), Err(HeaderError::InvalidTimestamp));
    assert_eq!(HeaderError::InvalidTimestamp.message(), "Could'nt parse input timestamp");
    // IF-MODIFIED-SINCE is consulted first.
    let both = headers(&[("if-unmodified-since", Some("x")), ("if-modified-since", Some("1"))]);
    assert_eq!(check_since(&both, 10), Ok(Some(false)));
}

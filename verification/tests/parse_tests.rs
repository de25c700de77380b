use ue_types::parse::{parse_uint_chars, split_chars, str_to_chars};

fn chars(s: &str) -> Vec<char> {
    str_to_chars(s)
}

#[test]
fn test_split_chars() {
    let parts = split_chars(&chars("a-b--c"), '-');
    let as_strings: Vec<String> = parts.iter().map(|p| p.iter().collect()).collect();
    assert_eq!(as_strings, vec!["a", "b", "", "c"]);

    let whole = split_chars(&chars("abc"), '-');
    assert_eq!(whole.len(), 1);

    let empty = split_chars(&chars(""), '-');
    assert_eq!(empty.len(), 1);
    assert!(empty[0].is_empty());
}

#[test]
fn test_parse_uint_chars() {
    assert_eq!(parse_uint_chars(&chars("255"), 10, u32::MAX), Some(255));
    assert_eq!(parse_uint_chars(&chars("ff"), 16, u32::MAX), Some(255));
    assert_eq!(parse_uint_chars(&chars("FF"), 16, u32::MAX), Some(255));
    assert_eq!(parse_uint_chars(&chars("+10"), 10, u32::MAX), Some(10));
    assert_eq!(parse_uint_chars(&chars(""), 10, u32::MAX), None);
    assert_eq!(parse_uint_chars(&chars("+"), 10, u32::MAX), None);
    assert_eq!(parse_uint_chars(&chars("-1"), 10, u32::MAX), None);
    assert_eq!(parse_uint_chars(&chars("1a"), 10, u32::MAX), None);
    assert_eq!(parse_uint_chars(&chars("65536"), 10, 65535), None);
    assert_eq!(parse_uint_chars(&chars("65535"), 10, 65535), Some(65535));
    assert_eq!(
        parse_uint_chars(&chars("99999999999999999999"), 10, u32::MAX),
        None
    );
}

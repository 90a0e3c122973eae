use cdh_client::text::{decode, join, split_once, starts_with, strip_prefix};

#[test]
fn starts_with_compares_whole_prefix() {
    assert!(starts_with("sealed.x", "sealed."));
    assert!(starts_with("sealed.", "sealed."));
    assert!(starts_with("anything", ""));
    assert!(starts_with("", ""));
    assert!(!starts_with("sealed", "sealed."));
    assert!(!starts_with("", "sealed."));
    assert!(!starts_with("sealeD.x", "sealed."));
    assert!(!starts_with("xsealed.", "sealed."));
}

#[test]
fn starts_with_counts_characters_not_bytes() {
    assert!(starts_with("ééé", "éé"));
    assert!(!starts_with("éa", "éé"));
    assert!(!starts_with("é", "éé"));
    assert!(starts_with("€uro", "€"));
}

#[test]
fn strip_prefix_returns_the_rest() {
    assert_eq!(strip_prefix("sealed.passwd", "sealed."), Some("passwd"));
    assert_eq!(strip_prefix("sealed.", "sealed."), Some(""));
    assert_eq!(strip_prefix("/sealed/a", "/sealed"), Some("/a"));
    assert_eq!(strip_prefix("passwd", "sealed."), None);
    assert_eq!(strip_prefix("", "sealed."), None);
    assert_eq!(strip_prefix("abc", ""), Some("abc"));
    assert_eq!(strip_prefix("é€𝄞x", "é€"), Some("𝄞x"));
}

#[test]
fn split_once_splits_at_the_first_delimiter() {
    assert_eq!(split_once("key=value", '='), Some(("key", "value")));
    assert_eq!(split_once("key=a=b", '='), Some(("key", "a=b")));
    assert_eq!(split_once("=value", '='), Some(("", "value")));
    assert_eq!(split_once("key=", '='), Some(("key", "")));
    assert_eq!(split_once("=", '='), Some(("", "")));
    assert_eq!(split_once("==", '='), Some(("", "=")));
    assert_eq!(split_once("key", '='), None);
    assert_eq!(split_once("", '='), None);
    assert_eq!(split_once("clé=välue", '='), Some(("clé", "välue")));
    assert_eq!(split_once("a€b€c", '€'), Some(("a", "b€c")));
}

#[test]
fn decode_accepts_utf8_only() {
    assert_eq!(decode(b"passwd"), Some("passwd"));
    assert_eq!(decode(b""), Some(""));
    assert_eq!(decode("é€𝄞".as_bytes()), Some("é€𝄞"));
    assert_eq!(decode(&[0xff]), None);
    assert_eq!(decode(&[0x80]), None);
    assert_eq!(decode(&[0xc3]), None);
    assert_eq!(decode(&[0xc0, 0x80]), None);
    assert_eq!(decode(&[0xed, 0xa0, 0x80]), None);
    assert_eq!(decode(&[0xf4, 0x90, 0x80, 0x80]), None);
    assert_eq!(decode(&[b'o', b'k', 0xfe]), None);
}

#[test]
fn join_puts_two_texts_together() {
    assert_eq!(join("/run/secrets/", "passwd"), "/run/secrets/passwd");
    assert_eq!(join("", "x"), "x");
    assert_eq!(join("x", ""), "x");
    assert_eq!(join("clé", "=€"), "clé=€");
}

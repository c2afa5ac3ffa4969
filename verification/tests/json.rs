use bing_wallpaper::json::{find_member, parse_document, str_equal, Json};

fn text(s: &str) -> Json {
    Json::Text(s.to_string())
}

#[test]
fn parse_document_reads_every_kind_of_value() {
    let document = parse_document(br#"{"b": 1, "a": [true, null, "x", -2.5], "c": {}}"#).unwrap();
    let members = match document {
        Json::Object(members) => members,
        other => panic!("not an object: {:?}", other),
    };
    assert_eq!(members.len(), 3);
    assert_eq!(members[0].0, "a");
    assert_eq!(members[1].0, "b");
    assert_eq!(members[2].0, "c");
    match &members[0].1 {
        Json::Array(items) => {
            assert_eq!(items.len(), 4);
            assert!(matches!(items[0], Json::Bool(true)));
            assert!(matches!(items[1], Json::Null));
            assert!(matches!(&items[2], Json::Text(t) if t == "x"));
            assert!(matches!(&items[3], Json::Number(n) if n == "-2.5"));
        }
        other => panic!("not an array: {:?}", other),
    }
    assert!(matches!(&members[1].1, Json::Number(n) if n == "1"));
    assert!(matches!(&members[2].1, Json::Object(inner) if inner.is_empty()));
}

#[test]
fn parse_document_rejects_what_is_not_json() {
    assert!(parse_document(b"").is_none());
    assert!(parse_document(b"{").is_none());
    assert!(parse_document(b"<html></html>").is_none());
    assert!(parse_document(b"{} trailing").is_none());
    assert!(parse_document(&[0xff, 0xfe]).is_none());
}

#[test]
fn parse_document_accepts_bare_values() {
    assert!(matches!(parse_document(b"null"), Some(Json::Null)));
    assert!(matches!(parse_document(b" \"hi\" "), Some(Json::Text(t)) if t == "hi"));
    assert!(matches!(parse_document(b"[]"), Some(Json::Array(items)) if items.is_empty()));
}

#[test]
fn parse_document_keeps_the_last_of_two_equal_keys() {
    let document = parse_document(br#"{"k": "first", "k": "second"}"#).unwrap();
    assert_eq!(document.get_member("k").and_then(|v| v.as_text()), Some("second"));
}

#[test]
fn get_member_finds_the_first_pair_with_the_key() {
    let object = Json::Object(vec![
        ("a".to_string(), text("one")),
        ("b".to_string(), text("two")),
        ("a".to_string(), text("three")),
    ]);
    assert_eq!(object.get_member("a").and_then(|v| v.as_text()), Some("one"));
    assert_eq!(object.get_member("b").and_then(|v| v.as_text()), Some("two"));
    assert!(object.get_member("c").is_none());
    assert!(object.get_member("").is_none());
}

#[test]
fn get_member_of_what_is_no_object_is_none() {
    assert!(Json::Null.get_member("a").is_none());
    assert!(text("a").get_member("a").is_none());
    assert!(Json::Array(vec![text("a")]).get_member("a").is_none());
}

#[test]
fn get_element_respects_the_bounds() {
    let array = Json::Array(vec![text("zero"), text("one")]);
    assert_eq!(array.get_element(0).and_then(|v| v.as_text()), Some("zero"));
    assert_eq!(array.get_element(1).and_then(|v| v.as_text()), Some("one"));
    assert!(array.get_element(2).is_none());
    assert!(array.get_element(usize::MAX).is_none());
    assert!(Json::Array(vec![]).get_element(0).is_none());
    assert!(Json::Object(vec![]).get_element(0).is_none());
}

#[test]
fn as_text_is_for_strings_only() {
    assert_eq!(text("").as_text(), Some(""));
    assert_eq!(Json::Number("1".to_string()).as_text(), None);
    assert_eq!(Json::Bool(true).as_text(), None);
    assert_eq!(Json::Null.as_text(), None);
}

#[test]
fn find_member_gives_the_length_where_the_key_is_missing() {
    let members = vec![("a".to_string(), Json::Null), ("b".to_string(), Json::Null)];
    assert_eq!(find_member(&members, "a"), 0);
    assert_eq!(find_member(&members, "b"), 1);
    assert_eq!(find_member(&members, "c"), 2);
    assert_eq!(find_member(&Vec::new(), "a"), 0);
}

#[test]
fn str_equal_compares_characters() {
    assert!(str_equal("", ""));
    assert!(str_equal("urlbase", "urlbase"));
    assert!(!str_equal("urlbase", "urlBase"));
    assert!(!str_equal("a", "ab"));
}

use bing_wallpaper::error::TaskError;
use bing_wallpaper::json::Json;
use bing_wallpaper::metadata::{metadata_from_document, parse_metadata};

#[test]
fn parse_metadata_reads_both_fields() {
    let body = br#"{"images":[{"urlbase":"/th?id=OHR.Test","fullstartdate":"20240101","copyright":"x"}],"tooltips":{}}"#;
    let metadata = parse_metadata(body).unwrap();
    assert_eq!(metadata.urlbase, "/th?id=OHR.Test");
    assert_eq!(metadata.fullstartdate, "20240101");
}

#[test]
fn parse_metadata_reads_the_first_image_only() {
    let body = br#"{"images":[{"urlbase":"/a","fullstartdate":"1"},{"urlbase":"/b","fullstartdate":"2"}]}"#;
    let metadata = parse_metadata(body).unwrap();
    assert_eq!(metadata.urlbase, "/a");
    assert_eq!(metadata.fullstartdate, "1");
}

#[test]
fn parse_metadata_defaults_missing_fields() {
    let metadata = parse_metadata(br#"{"images":[{}]}"#).unwrap();
    assert_eq!(metadata.urlbase, "");
    assert_eq!(metadata.fullstartdate, "unknown_date");
}

#[test]
fn parse_metadata_defaults_fields_that_are_no_strings() {
    let metadata = parse_metadata(br#"{"images":[{"urlbase":7,"fullstartdate":null}]}"#).unwrap();
    assert_eq!(metadata.urlbase, "");
    assert_eq!(metadata.fullstartdate, "unknown_date");
}

#[test]
fn parse_metadata_defaults_the_fields_of_an_image_that_is_no_object() {
    let metadata = parse_metadata(br#"{"images":["plain"]}"#).unwrap();
    assert_eq!(metadata.urlbase, "");
    assert_eq!(metadata.fullstartdate, "unknown_date");
}

#[test]
fn parse_metadata_rejects_a_body_that_is_not_json() {
    assert_eq!(parse_metadata(b"<html>").unwrap_err(), TaskError::MetadataParse);
    assert_eq!(parse_metadata(b"").unwrap_err(), TaskError::MetadataParse);
}

#[test]
fn parse_metadata_rejects_a_document_without_a_first_image() {
    assert_eq!(parse_metadata(b"{}").unwrap_err(), TaskError::MetadataParse);
    assert_eq!(parse_metadata(br#"{"images":[]}"#).unwrap_err(), TaskError::MetadataParse);
    assert_eq!(parse_metadata(br#"{"images":{"0":{}}}"#).unwrap_err(), TaskError::MetadataParse);
    assert_eq!(parse_metadata(br#"{"images":null}"#).unwrap_err(), TaskError::MetadataParse);
    assert_eq!(parse_metadata(b"[]").unwrap_err(), TaskError::MetadataParse);
}

#[test]
fn metadata_from_document_works_on_a_tree_built_by_hand() {
    let image = Json::Object(vec![
        ("fullstartdate".to_string(), Json::Text("202401010800".to_string())),
        ("urlbase".to_string(), Json::Text("/th?id=OHR.X".to_string())),
    ]);
    let document = Json::Object(vec![("images".to_string(), Json::Array(vec![image]))]);
    let metadata = metadata_from_document(&document).unwrap();
    assert_eq!(metadata.urlbase, "/th?id=OHR.X");
    assert_eq!(metadata.fullstartdate, "202401010800");
    assert!(metadata_from_document(&Json::Null).is_none());
    assert!(metadata_from_document(&Json::Object(vec![])).is_none());
}

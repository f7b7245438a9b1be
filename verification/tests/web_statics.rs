use etag::EntityTag;
use roseline::web::{if_none_match, ClientError};

#[test]
fn test_if_none_match_hit() {
    let etag = EntityTag::new(true, "12345");

    assert!(if_none_match(&etag, Some("\"1234\", W/\"12345\"")));
}

#[test]
fn test_if_none_match_miss() {
    let etag = EntityTag::new(true, "12345");

    assert!(!if_none_match(&etag, Some("\"1234\", W/\"1234\"")));
}

#[test]
fn absent_header_never_matches() {
    let etag = EntityTag::new(false, "abc");
    assert!(!if_none_match(&etag, None));
    assert!(!if_none_match(&etag, Some("")));
    assert!(!if_none_match(&etag, Some("garbage, more garbage")));
}

#[test]
fn strong_and_weak_tags_compare_weakly() {
    let etag = EntityTag::new(false, "abc");
    assert!(if_none_match(&etag, Some("W/\"abc\"")));
    assert!(if_none_match(&etag, Some("\"zzz\",\"abc\"")));
}

#[test]
fn client_error_keeps_its_message() {
    let err = ClientError::new("Missing version field");
    assert_eq!(err.message, "Missing version field");
}

use roseline::exec::parse_vndb_ref;

#[test]
fn should_parse_vndb_ref() {
    let result = parse_vndb_ref("v555").expect("To parse");
    assert_eq!(result.1, 555);
    assert_eq!(result.0.short(), "v");

    let result = parse_vndb_ref("c123").expect("To parse");
    assert_eq!(result.1, 123);
    assert_eq!(result.0.short(), "c");
}

#[test]
fn should_not_parse_vndb_ref() {
    let result = parse_vndb_ref("555");
    assert!(result.is_none());

    let result = parse_vndb_ref("g555");
    assert!(result.is_none());

    let result = parse_vndb_ref("v");
    assert!(result.is_none());

    let result = parse_vndb_ref("v0");
    assert!(result.is_none());
}

#[test]
fn should_reject_overflowing_ref() {
    assert!(parse_vndb_ref("v99999999999999999999").is_none());
    assert_eq!(parse_vndb_ref("v18446744073709551615").map(|r| r.1), Some(u64::MAX));
}

use roseline::protocol::{Kind, Flags, Filters, Options, Get, Frame, classify_frame};

#[test]
fn kinds_have_their_aliases() {
    assert_eq!(Kind::vn().short(), "v");
    assert_eq!(Kind::character().short(), "c");
    assert_eq!(Kind::release().short(), "r");
    assert_eq!(Kind::producer().short(), "p");
    assert_eq!(Kind::user().short(), "u");
    assert_eq!(Kind::from_prefix('p'), Some(Kind::Producer));
    assert_eq!(Kind::from_prefix('x'), None);
}

#[test]
fn request_lines_follow_the_wire_grammar() {
    assert_eq!(Get::vn_by_id(1).to_request().line, "get vn basic (id = 1)");
    assert_eq!(
        Get::vn_by_exact_title("Muv-Luv").to_request().line,
        "get vn basic (title = \"Muv-Luv\" or original = \"Muv-Luv\")"
    );
    assert_eq!(
        Get::vn_by_title("Muv").to_request().line,
        "get vn basic (title ~ \"Muv\" or original ~ \"Muv\")"
    );
    assert_eq!(
        Get::get_by_id(Kind::Release, 12).to_request().line,
        "get release basic (id = 12)"
    );
}

#[test]
fn options_render_as_json() {
    let mut filters = Filters::new();
    filters = filters.filter(String::from("id = 3"));
    let get = Get::new(Kind::Vn, Flags::new().basic(), filters, None)
        .set_options(Some(Options { page: 2, results: 10 }));
    assert_eq!(
        get.to_request().line,
        "get vn basic (id = 3) {\"page\":2,\"results\":10}"
    );
}

#[test]
fn frames_classify_by_their_first_word() {
    assert!(matches!(classify_frame("ok"), Frame::Okay));
    match classify_frame("results {\"num\":1}") {
        Frame::Results(payload) => assert_eq!(payload, "{\"num\":1}"),
        _ => panic!("expected a results frame"),
    }
    match classify_frame("error {\"id\":\"throttled\"}") {
        Frame::Error(payload) => assert_eq!(payload, "{\"id\":\"throttled\"}"),
        _ => panic!("expected an error frame"),
    }
    match classify_frame("dbstats {}") {
        Frame::Unknown(line) => assert_eq!(line, "dbstats {}"),
        _ => panic!("expected an unknown frame"),
    }
    assert!(matches!(classify_frame("results "), Frame::Unknown(_)));
}

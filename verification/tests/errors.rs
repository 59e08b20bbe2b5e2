use synapse_admin::errors::{extract_nested_error, format_error_body, read_error_body};
use synapse_admin::json::Json;
use synapse_admin::status::HttpStatus;

fn status_of(code: u16) -> HttpStatus {
    HttpStatus::new(code).unwrap()
}

fn object_of(members: Vec<(&str, Json)>) -> Json {
    Json::Object(members.into_iter().map(|(name, value)| (name.to_string(), value)).collect())
}

fn text_of(s: &str) -> Json {
    Json::Text(s.to_string())
}

#[test]
fn status_has_three_digits() {
    assert!(HttpStatus::new(99).is_none());
    assert!(HttpStatus::new(100).is_some());
    assert!(HttpStatus::new(999).is_some());
    assert!(HttpStatus::new(1000).is_none());
    assert!(HttpStatus::new(0).is_none());
    assert_eq!(status_of(404).as_u16(), 404);
}

#[test]
fn status_classes() {
    assert!(status_of(200).is_success());
    assert!(status_of(299).is_success());
    assert!(!status_of(199).is_success());
    assert!(!status_of(300).is_success());
    assert!(status_of(404).is_route_unsupported());
    assert!(status_of(405).is_route_unsupported());
    assert!(!status_of(403).is_route_unsupported());
    assert!(!status_of(406).is_route_unsupported());
    assert!(status_of(404).is_not_found());
    assert!(!status_of(405).is_not_found());
}

#[test]
fn status_is_printed_with_its_reason() {
    assert_eq!(read_error_body(status_of(404), ""), "HTTP 404 Not Found");
    assert_eq!(read_error_body(status_of(405), ""), "HTTP 405 Method Not Allowed");
    assert_eq!(read_error_body(status_of(500), ""), "HTTP 500 Internal Server Error");
    assert_eq!(read_error_body(status_of(100), ""), "HTTP 100 Continue");
    assert_eq!(read_error_body(status_of(299), ""), "HTTP 299 <unknown status code>");
    assert_eq!(read_error_body(status_of(999), "x"), "999 <unknown status code>: x");
}

#[test]
fn empty_body_gives_http_and_status() {
    assert_eq!(read_error_body(status_of(502), ""), "HTTP 502 Bad Gateway");
}

#[test]
fn stated_error_is_used() {
    assert_eq!(
        read_error_body(status_of(403), "{\"errcode\": \"M_FORBIDDEN\", \"error\": \"You are not a server admin\"}"),
        "403 Forbidden: You are not a server admin"
    );
}

#[test]
fn blank_error_falls_back_to_raw_body() {
    assert_eq!(
        read_error_body(status_of(400), "{\"error\": \"  \"}"),
        "400 Bad Request: {\"error\": \"  \"}"
    );
}

#[test]
fn error_that_is_no_text_falls_back_to_raw_body() {
    assert_eq!(
        read_error_body(status_of(500), "{\"error\": 17}"),
        "500 Internal Server Error: {\"error\": 17}"
    );
    assert_eq!(
        read_error_body(status_of(500), "[\"error\"]"),
        "500 Internal Server Error: [\"error\"]"
    );
}

#[test]
fn body_that_is_no_json_is_shown_as_it_came() {
    assert_eq!(
        read_error_body(status_of(503), "<html>down</html>"),
        "503 Service Unavailable: <html>down</html>"
    );
    assert_eq!(read_error_body(status_of(500), " "), "500 Internal Server Error:  ");
}

#[test]
fn error_is_kept_as_stated() {
    assert_eq!(
        read_error_body(status_of(400), "{\"error\": \" padded \"}"),
        "400 Bad Request:  padded "
    );
    assert_eq!(
        read_error_body(status_of(400), "{\"error\": \"quote \\\" and \\u00fc\"}"),
        "400 Bad Request: quote \" and ü"
    );
}

#[test]
fn format_error_body_takes_a_parsed_document() {
    let doc = object_of(vec![("error", text_of("boom"))]);
    assert_eq!(format_error_body("418 I'm a teapot", "{}", Some(&doc)), "418 I'm a teapot: boom");
    assert_eq!(format_error_body("418 I'm a teapot", "{}", None), "418 I'm a teapot: {}");
    assert_eq!(format_error_body("418 I'm a teapot", "", Some(&doc)), "HTTP 418 I'm a teapot");
}

#[test]
fn nested_error_at_the_top() {
    let doc = object_of(vec![("status", text_of("failed")), ("error", text_of("boom"))]);
    assert_eq!(extract_nested_error(&doc), Some("boom".to_string()));
}

#[test]
fn nested_error_in_shutdown_room() {
    let doc = object_of(vec![
        ("status", text_of("failed")),
        ("shutdown_room", object_of(vec![("error", text_of("cannot kick"))])),
    ]);
    assert_eq!(extract_nested_error(&doc), Some("cannot kick".to_string()));
}

#[test]
fn nested_error_prefers_the_top() {
    let doc = object_of(vec![
        ("shutdown_room", object_of(vec![("error", text_of("inner"))])),
        ("error", text_of("outer")),
    ]);
    assert_eq!(extract_nested_error(&doc), Some("outer".to_string()));
}

#[test]
fn nested_error_passes_over_a_blank_top() {
    let doc = object_of(vec![
        ("error", text_of(" \n")),
        ("shutdown_room", object_of(vec![("error", text_of("inner"))])),
    ]);
    assert_eq!(extract_nested_error(&doc), Some("inner".to_string()));
}

#[test]
fn nested_error_absent() {
    assert_eq!(extract_nested_error(&object_of(vec![])), None);
    assert_eq!(extract_nested_error(&Json::Null), None);
    assert_eq!(extract_nested_error(&text_of("error")), None);
    assert_eq!(extract_nested_error(&Json::Array(vec![text_of("error")])), None);
    let blank_inner = object_of(vec![("shutdown_room", object_of(vec![("error", text_of(""))]))]);
    assert_eq!(extract_nested_error(&blank_inner), None);
    let inner_no_object = object_of(vec![("shutdown_room", text_of("error"))]);
    assert_eq!(extract_nested_error(&inner_no_object), None);
    let not_text = object_of(vec![("error", Json::Bool(true))]);
    assert_eq!(extract_nested_error(&not_text), None);
}

#[test]
fn json_members_are_found_by_name() {
    let doc = object_of(vec![("a", Json::Number), ("b", text_of("x")), ("b", text_of("y"))]);
    assert_eq!(doc.get("a"), Some(&Json::Number));
    assert_eq!(doc.get("b"), Some(&text_of("x")));
    assert_eq!(doc.get("c"), None);
    assert_eq!(doc.get_str("b"), Some("x"));
    assert_eq!(doc.get_str("a"), None);
    assert_eq!(Json::Null.get("a"), None);
    assert_eq!(text_of("t").as_str(), Some("t"));
    assert_eq!(Json::Bool(false).as_str(), None);
    assert_eq!(Json::Array(vec![Json::Null]).as_array(), Some(&vec![Json::Null]));
    assert_eq!(doc.as_array(), None);
}

use click_tracker::response::{
    ContentType, Response, INVALID_REQUEST, LANDING_DOCUMENT, STATUS_BAD_REQUEST,
    STATUS_INTERNAL_SERVER_ERROR, STATUS_OK, STORE_FAILURE,
};
use click_tracker::record::{or_unknown, UNKNOWN};

#[test]
fn statuses() {
    assert_eq!(STATUS_OK, 200);
    assert_eq!(STATUS_BAD_REQUEST, 400);
    assert_eq!(STATUS_INTERNAL_SERVER_ERROR, 500);
}

#[test]
fn media_types() {
    assert_eq!(ContentType::Html.as_str(), "text/html");
    assert_eq!(ContentType::PlainText.as_str(), "text/plain");
}

#[test]
fn invalid_request_response() {
    let response = Response::invalid_request();
    assert_eq!(response.status, 400);
    assert_eq!(response.content_type, ContentType::PlainText);
    assert_eq!(response.body, "Invalid request");
    assert_eq!(response.body, INVALID_REQUEST);
}

#[test]
fn landing_document_response() {
    let response = Response::landing_document();
    assert_eq!(response.status, 200);
    assert_eq!(response.content_type, ContentType::Html);
    assert_eq!(response.body, LANDING_DOCUMENT);
    assert!(response.body.trim_start().starts_with("<!DOCTYPE html>"));
    assert!(response.body.trim_end().ends_with("</html>"));
}

#[test]
fn store_failure_response() {
    let response = Response::store_failure();
    assert_eq!(response.status, 500);
    assert_eq!(response.content_type, ContentType::PlainText);
    assert_eq!(response.body, STORE_FAILURE);
}

#[test]
fn plain_text_response() {
    let response = Response::plain_text("some text".to_string());
    assert_eq!(response.status, 200);
    assert_eq!(response.content_type, ContentType::PlainText);
    assert_eq!(response.body, "some text");
}

#[test]
fn unknown_is_the_fallback() {
    assert_eq!(UNKNOWN, "unknown");
    assert_eq!(or_unknown(None), "unknown");
    assert_eq!(or_unknown(Some("10.0.0.5".to_string())), "10.0.0.5");
    assert_eq!(or_unknown(Some(String::new())), "");
}

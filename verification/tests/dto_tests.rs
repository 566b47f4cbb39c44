use rfserve::dto::{app_error_message, content_disposition, register_reply, RegisterResponse};
use rfserve::register::RegisterServiceOutput;

#[test]
fn response_keeps_its_fields() {
    let r = RegisterResponse::new(Some("u".to_string()), None);
    assert_eq!(r.url.as_deref(), Some("u"));
    assert_eq!(r.error_msg, None);
}

#[test]
fn successful_registration_answers_ok_with_url() {
    let (status, body) = register_reply(Some(RegisterServiceOutput { url: "http://h:1/rfserve/download/x".to_string() }));
    assert_eq!(status, 200);
    assert_eq!(body.url.as_deref(), Some("http://h:1/rfserve/download/x"));
    assert_eq!(body.error_msg, None);
}

#[test]
fn failed_registration_answers_server_error() {
    let (status, body) = register_reply(None);
    assert_eq!(status, 500);
    assert_eq!(body.url, None);
    assert_eq!(body.error_msg.as_deref(), Some("app error"));
    assert_eq!(app_error_message(), "app error");
}

#[test]
fn attachment_header_names_the_file() {
    assert_eq!(content_disposition("movie.mp4"), "attachment; filename=\"movie.mp4\"");
    assert_eq!(content_disposition(""), "attachment; filename=\"\"");
}

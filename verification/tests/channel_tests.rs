use rest_client::channel::{
    http_err_clear, http_err_destroy, http_err_kind, http_err_msg, http_err_msg_len,
    take_last_error, take_last_http_error, update_last_error, ErrorChannel, HttpException,
};
use rest_client::kinds::HttpErrorKind;

#[test]
fn take_returns_and_clears() {
    let mut ch = ErrorChannel::new();
    assert!(take_last_error(&mut ch).is_none());
    update_last_error(&mut ch, HttpErrorKind::HttpTimeout, String::from("slow"));
    let rec = take_last_error(&mut ch).expect("a record was stored");
    assert_eq!(rec.error_kind, HttpErrorKind::HttpTimeout);
    assert_eq!(rec.err_msg, "slow");
    assert!(take_last_error(&mut ch).is_none());
}

#[test]
fn new_failure_overwrites_unread_record() {
    let mut ch = ErrorChannel::new();
    update_last_error(&mut ch, HttpErrorKind::HttpTimeout, String::from("first"));
    update_last_error(&mut ch, HttpErrorKind::NotFound, String::from("second"));
    let rec = take_last_error(&mut ch).expect("a record was stored");
    assert_eq!(rec.error_kind, HttpErrorKind::NotFound);
    assert_eq!(rec.err_msg, "second");
}

#[test]
fn take_last_http_error_matches_take_last_error() {
    let mut ch = ErrorChannel::new();
    assert!(take_last_http_error(&mut ch).is_none());
    update_last_error(&mut ch, HttpErrorKind::BrokenPipe, String::from("pipe"));
    let rec = take_last_http_error(&mut ch).expect("a record was stored");
    assert_eq!(rec.error_kind, HttpErrorKind::BrokenPipe);
    assert!(take_last_http_error(&mut ch).is_none());
}

#[test]
fn exception_new_and_clear() {
    let mut e = HttpException::new(HttpErrorKind::HttpRedirect, String::from("loop"));
    assert_eq!(e.error_kind, HttpErrorKind::HttpRedirect);
    assert_eq!(e.err_msg, "loop");
    e.clear_error();
    assert_eq!(e.error_kind, HttpErrorKind::NoError);
    assert_eq!(e.err_msg, "");
}

#[test]
fn error_handle_queries() {
    let h = Some(HttpException::new(HttpErrorKind::HttpStatus, String::from("teapot")));
    assert_eq!(http_err_kind(&h), HttpErrorKind::HttpStatus);
    assert_eq!(http_err_msg_len(&h), 6);
    let wide = Some(HttpException::new(HttpErrorKind::Other, String::from("\u{e9}")));
    assert_eq!(http_err_msg_len(&wide), 2);
    assert_eq!(http_err_msg(&h), Some("teapot"));
    let mut h = h;
    http_err_clear(&mut h);
    assert_eq!(http_err_kind(&h), HttpErrorKind::NoError);
    assert_eq!(http_err_msg_len(&h), 0);
    http_err_destroy(h);
}

#[test]
fn error_handle_null_sentinels() {
    let h: Option<HttpException> = None;
    assert_eq!(http_err_kind(&h), HttpErrorKind::HttpHandleNull);
    assert_eq!(http_err_msg_len(&h), 0);
    assert!(http_err_msg(&h).is_none());
    let mut h = h;
    http_err_clear(&mut h);
    assert!(h.is_none());
}

#[test]
fn destroying_null_handles_repeatedly_never_faults() {
    for _ in 0..5 {
        http_err_destroy(None);
        rest_client::buffer::free_r_string(None);
        rest_client::buffer::free_resp_body(None);
        rest_client::headers::header_map_destroy(None);
        rest_client::builder::client_builder_destroy(None);
        rest_client::client::client_destroy(None);
        rest_client::proxy::proxy_destroy(None);
        rest_client::request::request_builder_destroy(None);
        rest_client::request::request_destroy(None);
        rest_client::response::response_destroy(None);
    }
}

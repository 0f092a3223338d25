use rest_client::builder::{
    client_builder_add_root_certificate, client_builder_build_client,
    client_builder_connect_timeout, client_builder_destroy,
    client_builder_local_address, client_builder_max_tls_version, client_builder_min_tls_version,
    client_builder_pool_max_idle_per_host, client_builder_redirect, client_builder_referer,
    client_builder_tcp_nodelay, client_builder_timeout, client_builder_user_agent,
    new_client_builder,
};
use rest_client::channel::{take_last_error, ErrorChannel};
use rest_client::client::{
    client_execute, client_get, client_head, client_post, client_request,
};
use rest_client::kinds::HttpErrorKind;
use rest_client::proxy::{proxy_all, proxy_destroy, proxy_http, proxy_https};
use rest_client::request::{
    request_builder_build, request_builder_header, request_builder_send, request_builder_timeout,
    request_builder_try_clone, request_builder_version,
};
use rest_client::response::{response_bytes, response_status};
use rest_client::text::TextArg;

fn text(s: &str) -> TextArg {
    TextArg::Text(String::from(s))
}

#[test]
fn builder_chain_builds_a_client() {
    let mut ch = ErrorChannel::new();
    let b = new_client_builder();
    let b = client_builder_user_agent(&mut ch, b, &text("agent"));
    let b = client_builder_timeout(&mut ch, b, Some(5000));
    let b = client_builder_referer(&mut ch, b, true);
    let b = client_builder_redirect(&mut ch, b, 4);
    let b = client_builder_tcp_nodelay(&mut ch, b, true);
    assert!(b.is_some());
    let c = client_builder_build_client(&mut ch, b);
    assert!(c.is_some());
    assert!(take_last_error(&mut ch).is_none());
}

#[test]
fn unrelated_configuration_calls_commute_observably() {
    let mut ch = ErrorChannel::new();
    let b = new_client_builder();
    let b = client_builder_timeout(&mut ch, b, Some(1000));
    let b = client_builder_pool_max_idle_per_host(&mut ch, b, 7);
    let first = client_builder_build_client(&mut ch, b);
    assert!(first.is_some());
    let b = new_client_builder();
    let b = client_builder_pool_max_idle_per_host(&mut ch, b, 7);
    let b = client_builder_timeout(&mut ch, b, Some(1000));
    let second = client_builder_build_client(&mut ch, b);
    assert!(second.is_some());
    assert!(take_last_error(&mut ch).is_none());
}

#[test]
fn null_builder_records_null_handle_kind() {
    let mut ch = ErrorChannel::new();
    assert!(client_builder_user_agent(&mut ch, None, &text("x")).is_none());
    assert_eq!(take_last_error(&mut ch).unwrap().error_kind, HttpErrorKind::HttpHandleNull);
    assert!(client_builder_timeout(&mut ch, None, Some(1)).is_none());
    assert_eq!(take_last_error(&mut ch).unwrap().error_kind, HttpErrorKind::HttpHandleNull);
    assert!(client_builder_build_client(&mut ch, None).is_none());
    assert_eq!(take_last_error(&mut ch).unwrap().error_kind, HttpErrorKind::HttpHandleNull);
}

#[test]
fn tls_version_texts_are_validated() {
    let mut ch = ErrorChannel::new();
    let b = new_client_builder();
    let b = client_builder_min_tls_version(&mut ch, b, &text("1.2"));
    assert!(b.is_some());
    let b = client_builder_max_tls_version(&mut ch, b, &text("1.3"));
    assert!(b.is_some());
    assert!(take_last_error(&mut ch).is_none());
    let bad = client_builder_min_tls_version(&mut ch, new_client_builder(), &text("9.9"));
    assert!(bad.is_none());
    assert_eq!(take_last_error(&mut ch).unwrap().error_kind, HttpErrorKind::Other);
    client_builder_destroy(b);
}

#[test]
fn local_address_text_is_validated() {
    let mut ch = ErrorChannel::new();
    let good = client_builder_local_address(&mut ch, new_client_builder(), &text("127.0.0.1"));
    assert!(good.is_some());
    assert!(take_last_error(&mut ch).is_none());
    let bad = client_builder_local_address(&mut ch, new_client_builder(), &text("not-an-address"));
    assert!(bad.is_none());
    assert_eq!(take_last_error(&mut ch).unwrap().error_kind, HttpErrorKind::Other);
    client_builder_destroy(good);
}

#[test]
fn connect_timeout_accepts_absent_budget() {
    let mut ch = ErrorChannel::new();
    let b = client_builder_connect_timeout(&mut ch, new_client_builder(), None);
    assert!(b.is_some());
    assert!(take_last_error(&mut ch).is_none());
    client_builder_destroy(b);
}

#[test]
fn proxies_accept_reasonable_schemes() {
    let mut ch = ErrorChannel::new();
    let p = proxy_http(&mut ch, &text("http://localhost:3128"));
    assert!(p.is_some());
    proxy_destroy(p);
    let p = proxy_https(&mut ch, &text("http://localhost:3128"));
    assert!(p.is_some());
    proxy_destroy(p);
    let p = proxy_all(&mut ch, &text("socks5://localhost:1080"));
    assert!(p.is_some());
    proxy_destroy(p);
    assert!(take_last_error(&mut ch).is_none());
    assert!(proxy_http(&mut ch, &TextArg::Null).is_none());
    assert_eq!(take_last_error(&mut ch).unwrap().error_kind, HttpErrorKind::HttpHandleNull);
}

#[test]
fn certificates_are_judged_by_their_bytes() {
    let mut ch = ErrorChannel::new();
    let garbage: Vec<u8> = vec![1, 2, 3, 4];
    let bad = client_builder_add_root_certificate(&mut ch, new_client_builder(), &garbage);
    assert!(bad.is_none());
    assert_eq!(take_last_error(&mut ch).unwrap().error_kind, HttpErrorKind::Other);
    assert!(client_builder_add_root_certificate(&mut ch, None, &garbage).is_none());
    assert_eq!(take_last_error(&mut ch).unwrap().error_kind, HttpErrorKind::HttpHandleNull);
}

#[test]
fn rejected_proxy_schemes_record_the_failure() {
    let mut ch = ErrorChannel::new();
    assert!(proxy_http(&mut ch, &text("http://[")).is_none());
    assert_eq!(take_last_error(&mut ch).unwrap().error_kind, HttpErrorKind::Other);
    assert!(proxy_all(&mut ch, &text("http://[")).is_none());
    assert_eq!(take_last_error(&mut ch).unwrap().error_kind, HttpErrorKind::Other);
}

#[test]
fn addresses_are_validated_before_the_engine_sees_them() {
    let mut ch = ErrorChannel::new();
    let c = client_builder_build_client(&mut ch, new_client_builder());
    assert!(client_get(&mut ch, &c, &text("http://example.com/")).is_some());
    assert!(take_last_error(&mut ch).is_none());
    assert!(client_get(&mut ch, &c, &text("no scheme at all")).is_none());
    assert_eq!(take_last_error(&mut ch).unwrap().error_kind, HttpErrorKind::Other);
    assert!(client_post(&mut ch, &c, &text("http://example.com/x")).is_some());
    assert!(client_head(&mut ch, &c, &TextArg::Null).is_none());
    assert!(take_last_error(&mut ch).is_none());
    assert!(client_get(&mut ch, &None, &text("http://example.com/")).is_none());
    assert_eq!(take_last_error(&mut ch).unwrap().error_kind, HttpErrorKind::HttpHandleNull);
}

#[test]
fn methods_must_be_tokens() {
    let mut ch = ErrorChannel::new();
    let c = client_builder_build_client(&mut ch, new_client_builder());
    assert!(client_request(&mut ch, &c, &text("PROPFIND"), &text("http://example.com/")).is_some());
    assert!(take_last_error(&mut ch).is_none());
    assert!(client_request(&mut ch, &c, &text("BAD METHOD"), &text("http://example.com/")).is_none());
    assert_eq!(take_last_error(&mut ch).unwrap().error_kind, HttpErrorKind::Other);
}

#[test]
fn request_arguments_are_validated_left_to_right() {
    let mut ch = ErrorChannel::new();
    let c = client_builder_build_client(&mut ch, new_client_builder());
    // both arguments invalid: the method, being first, determines the record
    assert!(client_request(&mut ch, &c, &TextArg::Malformed, &text("no scheme at all")).is_none());
    assert_eq!(take_last_error(&mut ch).unwrap().error_kind, HttpErrorKind::CharConversion);
    assert!(client_request(&mut ch, &c, &text("BAD METHOD"), &text("no scheme at all")).is_none());
    assert_eq!(take_last_error(&mut ch).unwrap().error_kind, HttpErrorKind::Other);
    // a null method is silently absent; the address is never examined
    assert!(client_request(&mut ch, &c, &TextArg::Null, &text("no scheme at all")).is_none());
    assert!(take_last_error(&mut ch).is_none());
}

#[test]
fn request_chain_with_timeout_and_header_builds() {
    let mut ch = ErrorChannel::new();
    let c = client_builder_build_client(&mut ch, new_client_builder());
    let rb = client_get(&mut ch, &c, &text("http://example.com/data"));
    let rb = request_builder_timeout(&mut ch, rb, 5000);
    let rb = request_builder_header(&mut ch, rb, &text("Accept"), &text("application/json"));
    assert!(rb.is_some());
    let req = request_builder_build(&mut ch, rb);
    assert!(req.is_some());
    assert!(take_last_error(&mut ch).is_none());
}

#[test]
fn request_version_texts_are_validated() {
    let mut ch = ErrorChannel::new();
    let c = client_builder_build_client(&mut ch, new_client_builder());
    let rb = client_get(&mut ch, &c, &text("http://example.com/"));
    let rb = request_builder_version(&mut ch, rb, &text("1.1"));
    assert!(rb.is_some());
    let rb2 = client_get(&mut ch, &c, &text("http://example.com/"));
    assert!(request_builder_version(&mut ch, rb2, &text("4")).is_none());
    assert_eq!(take_last_error(&mut ch).unwrap().error_kind, HttpErrorKind::Other);
}

#[test]
fn try_clone_yields_a_copy_and_keeps_the_original() {
    let mut ch = ErrorChannel::new();
    let c = client_builder_build_client(&mut ch, new_client_builder());
    let rb = client_get(&mut ch, &c, &text("http://example.com/"));
    let rb = request_builder_header(&mut ch, rb, &text("x-a"), &text("1"));
    let copy = request_builder_try_clone(&mut ch, &rb);
    assert!(copy.is_some());
    assert!(request_builder_build(&mut ch, copy).is_some());
    assert!(request_builder_build(&mut ch, rb).is_some());
    assert!(take_last_error(&mut ch).is_none());
    assert!(request_builder_try_clone(&mut ch, &None).is_none());
    assert_eq!(take_last_error(&mut ch).unwrap().error_kind, HttpErrorKind::HttpHandleNull);
}

#[test]
fn execute_with_null_handles_records_null_handle_kind() {
    let mut ch = ErrorChannel::new();
    let c = client_builder_build_client(&mut ch, new_client_builder());
    assert!(client_execute(&mut ch, &c, None).is_none());
    assert_eq!(take_last_error(&mut ch).unwrap().error_kind, HttpErrorKind::HttpHandleNull);
    assert!(client_execute(&mut ch, &None, None).is_none());
    assert_eq!(take_last_error(&mut ch).unwrap().error_kind, HttpErrorKind::HttpHandleNull);
    assert!(request_builder_send(&mut ch, None).is_none());
    assert_eq!(take_last_error(&mut ch).unwrap().error_kind, HttpErrorKind::HttpHandleNull);
}

#[test]
fn unreachable_address_yields_null_response_and_transport_kind() {
    let mut ch = ErrorChannel::new();
    let c = client_builder_build_client(&mut ch, new_client_builder());
    let rb = client_get(&mut ch, &c, &text("http://127.0.0.1:9/"));
    let rb = request_builder_timeout(&mut ch, rb, 3000);
    let resp = request_builder_send(&mut ch, rb);
    assert!(resp.is_none());
    let rec = take_last_error(&mut ch).expect("the failure is recorded");
    assert!(
        rec.error_kind == HttpErrorKind::ConnectionRefused
            || rec.error_kind == HttpErrorKind::HttpRequest
            || rec.error_kind == HttpErrorKind::HttpTimeout,
    );
    assert_ne!(rec.error_kind, HttpErrorKind::Other);
    assert!(!rec.err_msg.is_empty());
}

#[test]
fn null_response_handle_yields_sentinels() {
    let mut ch = ErrorChannel::new();
    let mut none_resp = None;
    assert_eq!(response_status(&mut ch, &none_resp), -1);
    assert_eq!(take_last_error(&mut ch).unwrap().error_kind, HttpErrorKind::HttpHandleNull);
    assert!(response_bytes(&mut ch, &mut none_resp).is_none());
    assert_eq!(take_last_error(&mut ch).unwrap().error_kind, HttpErrorKind::HttpHandleNull);
}

/// url error back when send
#[test]
fn into_url_scheme() {
    let c = reqwest::blocking::Client::new();
    let req = c.request(reqwest::Method::GET, "url");
    let _ = match req.send() {
        Ok(_) => (),
        Err(e) => {
            println!("{:#?}", e)
        },
    };
}

#[test]
fn test_addr() {
    let cb = reqwest::blocking::ClientBuilder::new();
    println!("addr of client_builder new={:p}", &cb);
    let cb2 = cb.user_agent("AB");
    println!("addr of client_builder user_agent={:p}", &cb2);
}

#[test]
fn consumed_response_deterministically_reports_already_consumed() {
    let mut ch = ErrorChannel::new();
    let mut r = Some(rest_client::response::ResponseHandle::new(None));
    assert!(response_bytes(&mut ch, &mut r).is_none());
    assert_eq!(take_last_error(&mut ch).unwrap().error_kind, HttpErrorKind::InvalidData);
    assert!(response_bytes(&mut ch, &mut r).is_none());
    assert_eq!(take_last_error(&mut ch).unwrap().error_kind, HttpErrorKind::InvalidData);
    assert!(rest_client::response::response_body_text(&mut ch, &mut r).is_none());
    assert_eq!(take_last_error(&mut ch).unwrap().error_kind, HttpErrorKind::InvalidData);
    assert!(rest_client::response::response_copy_to(&mut ch, &mut r).is_none());
    assert_eq!(take_last_error(&mut ch).unwrap().error_kind, HttpErrorKind::InvalidData);
    assert_eq!(response_status(&mut ch, &r), -1);
    assert_eq!(take_last_error(&mut ch).unwrap().error_kind, HttpErrorKind::InvalidData);
    assert_eq!(rest_client::response::response_content_length(&mut ch, &r), 0);
    assert_eq!(take_last_error(&mut ch).unwrap().error_kind, HttpErrorKind::InvalidData);
}

use rest_client::buffer::{
    free_r_string, free_resp_body, r_string_bytes, r_string_len, resp_body_content,
    resp_body_content_len, ByteBuffer, RString, RespBody,
};
use rest_client::channel::{take_last_error, ErrorChannel};
use rest_client::kinds::HttpErrorKind;
use rest_client::text::{
    extract_file_name, pair_to_tuple, to_rust_str, u64_to_millis_duration, Pair, TextArg,
};

#[test]
fn resp_body_round_trip() {
    let mut ch = ErrorChannel::new();
    let payload: Vec<u8> = vec![104, 105, 0, 255, 33];
    let body = Some(RespBody::new(payload.clone()));
    assert_eq!(resp_body_content_len(&mut ch, &body), payload.len() as u64);
    assert_eq!(resp_body_content(&mut ch, &body), Some(payload.as_slice()));
    assert_eq!(resp_body_content(&mut ch, &body), Some(payload.as_slice()));
    assert!(take_last_error(&mut ch).is_none());
    free_resp_body(body);
}

#[test]
fn resp_body_null_sentinels_record_null_handle() {
    let mut ch = ErrorChannel::new();
    assert_eq!(resp_body_content_len(&mut ch, &None), 0);
    let rec = take_last_error(&mut ch).expect("null handle is recorded");
    assert_eq!(rec.error_kind, HttpErrorKind::HttpHandleNull);
    assert!(resp_body_content(&mut ch, &None).is_none());
    let rec = take_last_error(&mut ch).expect("null handle is recorded");
    assert_eq!(rec.error_kind, HttpErrorKind::HttpHandleNull);
}

#[test]
fn r_string_round_trip() {
    let s = RString::new(String::from("hello"));
    assert_eq!(s.data_len(), 5);
    assert_eq!(s.data_ptr(), "hello");
    let h = Some(s);
    assert_eq!(r_string_len(&h), 5);
    assert_eq!(r_string_bytes(&h), Some("hello"));
    free_r_string(h);
    assert_eq!(r_string_len(&None), 0);
    assert!(r_string_bytes(&None).is_none());
}

#[test]
fn byte_buffer_holds_its_data() {
    let _ = ByteBuffer::new(vec![1, 2, 3]);
    let _ = ByteBuffer::new(Vec::new());
}

#[test]
fn extract_file_name_takes_the_stem() {
    assert_eq!(extract_file_name("src/client.rs"), "client");
    assert_eq!(extract_file_name("a/b/c.tar.gz"), "c.tar");
    assert_eq!(extract_file_name("noext"), "noext");
    assert_eq!(extract_file_name("dir/noext"), "noext");
    assert_eq!(extract_file_name(".hidden"), ".hidden");
    assert_eq!(extract_file_name("trailing."), "trailing");
    assert_eq!(extract_file_name(""), "");
    assert_eq!(extract_file_name("a/.."), "a/..");
    assert_eq!(extract_file_name("."), ".");
    assert_eq!(extract_file_name("a/b/"), "b");
    assert_eq!(extract_file_name("dir//"), "dir");
    assert_eq!(extract_file_name("/"), "/");
    assert_eq!(extract_file_name("a/b.txt///"), "b");
}

#[test]
fn text_lengths_are_byte_lengths() {
    let s = RString::new(String::from("caf\u{e9}"));
    assert_eq!(s.data_len(), 5);
    assert_eq!(s.data_ptr(), "caf\u{e9}");
    let h = Some(s);
    assert_eq!(r_string_len(&h), 5);
    let ascii = Some(RString::new(String::from("cafe")));
    assert_eq!(r_string_len(&ascii), 4);
}

#[test]
fn millis_duration_mirrors_presence() {
    assert!(u64_to_millis_duration(Some(5000)).is_some());
    assert!(u64_to_millis_duration(None).is_none());
}

#[test]
fn text_intake_follows_the_conversion_discipline() {
    let mut ch = ErrorChannel::new();
    let t = TextArg::Text(String::from("abc"));
    assert_eq!(to_rust_str(&mut ch, &t, "tip"), Some(&String::from("abc")));
    assert!(take_last_error(&mut ch).is_none());
    assert!(to_rust_str(&mut ch, &TextArg::Null, "tip").is_none());
    assert!(take_last_error(&mut ch).is_none());
    assert!(to_rust_str(&mut ch, &TextArg::Malformed, "tip").is_none());
    let rec = take_last_error(&mut ch).expect("malformed text is recorded");
    assert_eq!(rec.error_kind, HttpErrorKind::CharConversion);
}

#[test]
fn pair_conversion_blanks_missing_sides() {
    let mut ch = ErrorChannel::new();
    let p = Pair { key: TextArg::Text(String::from("k")), value: TextArg::Null };
    let (k, v) = pair_to_tuple(&mut ch, &p);
    assert_eq!(k, "k");
    assert_eq!(v, "");
    assert!(take_last_error(&mut ch).is_none());
    let p = Pair { key: TextArg::Malformed, value: TextArg::Text(String::from("v")) };
    let (k, v) = pair_to_tuple(&mut ch, &p);
    assert_eq!(k, "");
    assert_eq!(v, "v");
    let rec = take_last_error(&mut ch).expect("malformed side is recorded");
    assert_eq!(rec.error_kind, HttpErrorKind::CharConversion);
}

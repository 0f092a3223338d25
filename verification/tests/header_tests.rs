use rest_client::channel::{take_last_error, ErrorChannel};
use rest_client::headers::{
    header_map_append, header_map_capacity, header_map_clear, header_map_contains_key,
    header_map_destroy, header_map_get, header_map_get_all, header_map_insert, header_map_keys,
    header_map_keys_len, header_map_len, header_map_remove, header_map_reserve, header_map_values,
    new_header_map,
};
use rest_client::kinds::HttpErrorKind;
use rest_client::text::TextArg;

fn text(s: &str) -> TextArg {
    TextArg::Text(String::from(s))
}

#[test]
fn insert_then_get_all_round_trip() {
    let mut ch = ErrorChannel::new();
    let mut m = new_header_map();
    assert!(header_map_insert(&mut ch, &mut m, &text("X-Token"), &text("alpha")));
    let got = header_map_get_all(&mut ch, &m, &text("x-token")).expect("map handle is live");
    assert_eq!(got.data_ptr(), "alpha");
    assert!(header_map_append(&mut ch, &mut m, &text("x-token"), &text("beta")));
    let got = header_map_get_all(&mut ch, &m, &text("X-TOKEN")).expect("map handle is live");
    assert_eq!(got.data_ptr(), "alpha;beta");
    assert!(take_last_error(&mut ch).is_none());
    header_map_destroy(m);
}

#[test]
fn insert_replaces_all_previous_values() {
    let mut ch = ErrorChannel::new();
    let mut m = new_header_map();
    assert!(header_map_insert(&mut ch, &mut m, &text("k"), &text("one")));
    assert!(header_map_append(&mut ch, &mut m, &text("k"), &text("two")));
    assert!(header_map_insert(&mut ch, &mut m, &text("k"), &text("three")));
    let got = header_map_get_all(&mut ch, &m, &text("k")).expect("map handle is live");
    assert_eq!(got.data_ptr(), "three");
    assert_eq!(header_map_len(&mut ch, &m), 1);
}

#[test]
fn get_returns_the_first_value() {
    let mut ch = ErrorChannel::new();
    let mut m = new_header_map();
    assert!(header_map_insert(&mut ch, &mut m, &text("accept"), &text("application/json")));
    assert!(header_map_append(&mut ch, &mut m, &text("accept"), &text("text/plain")));
    let got = header_map_get(&mut ch, &m, &text("ACCEPT")).expect("key is present");
    assert_eq!(got.data_ptr(), "application/json");
    assert!(header_map_get(&mut ch, &m, &text("absent")).is_none());
    assert!(take_last_error(&mut ch).is_none());
}

#[test]
fn counts_and_membership() {
    let mut ch = ErrorChannel::new();
    let mut m = new_header_map();
    assert_eq!(header_map_len(&mut ch, &m), 0);
    assert_eq!(header_map_keys_len(&mut ch, &m), 0);
    assert!(header_map_insert(&mut ch, &mut m, &text("a"), &text("1")));
    assert!(header_map_append(&mut ch, &mut m, &text("a"), &text("2")));
    assert!(header_map_insert(&mut ch, &mut m, &text("b"), &text("3")));
    assert_eq!(header_map_len(&mut ch, &m), 3);
    assert_eq!(header_map_keys_len(&mut ch, &m), 2);
    assert!(header_map_contains_key(&mut ch, &m, &text("a")));
    assert!(header_map_contains_key(&mut ch, &m, &text("A")));
    assert!(!header_map_contains_key(&mut ch, &m, &text("c")));
    assert!(header_map_remove(&mut ch, &mut m, &text("a")));
    assert!(!header_map_contains_key(&mut ch, &m, &text("a")));
    assert_eq!(header_map_keys_len(&mut ch, &m), 1);
    header_map_clear(&mut ch, &mut m);
    assert_eq!(header_map_len(&mut ch, &m), 0);
    assert!(take_last_error(&mut ch).is_none());
}

#[test]
fn keys_and_values_are_joined() {
    let mut ch = ErrorChannel::new();
    let mut m = new_header_map();
    assert!(header_map_insert(&mut ch, &mut m, &text("k1"), &text("v1")));
    let keys = header_map_keys(&mut ch, &m).expect("map handle is live");
    assert_eq!(keys.data_ptr(), "k1");
    let values = header_map_values(&mut ch, &m).expect("map handle is live");
    assert_eq!(values.data_ptr(), "v1");
}

#[test]
fn capacity_and_reserve_do_not_change_contents() {
    let mut ch = ErrorChannel::new();
    let mut m = new_header_map();
    assert!(header_map_insert(&mut ch, &mut m, &text("k"), &text("v")));
    assert!(header_map_capacity(&mut ch, &m) >= 0);
    header_map_reserve(&mut ch, &mut m, 8);
    let got = header_map_get_all(&mut ch, &m, &text("k")).expect("map handle is live");
    assert_eq!(got.data_ptr(), "v");
    assert!(take_last_error(&mut ch).is_none());
}

#[test]
fn rejected_names_and_values_record_failures() {
    let mut ch = ErrorChannel::new();
    let mut m = new_header_map();
    assert!(!header_map_insert(&mut ch, &mut m, &text("bad name"), &text("v")));
    let rec = take_last_error(&mut ch).expect("bad name is recorded");
    assert_eq!(rec.error_kind, HttpErrorKind::Other);
    assert!(!header_map_insert(&mut ch, &mut m, &text("k"), &text("bad\nvalue")));
    let rec = take_last_error(&mut ch).expect("bad value is recorded");
    assert_eq!(rec.error_kind, HttpErrorKind::Other);
    assert!(!header_map_insert(&mut ch, &mut m, &TextArg::Malformed, &text("v")));
    let rec = take_last_error(&mut ch).expect("malformed key is recorded");
    assert_eq!(rec.error_kind, HttpErrorKind::CharConversion);
    assert!(!header_map_insert(&mut ch, &mut m, &TextArg::Null, &text("v")));
    assert!(take_last_error(&mut ch).is_none());
    assert_eq!(header_map_len(&mut ch, &m), 0);
}

#[test]
fn null_map_handle_records_null_handle_kind() {
    let mut ch = ErrorChannel::new();
    let mut m: Option<reqwest::header::HeaderMap> = None;
    assert!(!header_map_insert(&mut ch, &mut m, &text("k"), &text("v")));
    assert_eq!(take_last_error(&mut ch).unwrap().error_kind, HttpErrorKind::HttpHandleNull);
    assert!(!header_map_append(&mut ch, &mut m, &text("k"), &text("v")));
    assert_eq!(take_last_error(&mut ch).unwrap().error_kind, HttpErrorKind::HttpHandleNull);
    assert!(!header_map_remove(&mut ch, &mut m, &text("k")));
    assert_eq!(take_last_error(&mut ch).unwrap().error_kind, HttpErrorKind::HttpHandleNull);
    assert!(header_map_get(&mut ch, &m, &text("k")).is_none());
    assert_eq!(take_last_error(&mut ch).unwrap().error_kind, HttpErrorKind::HttpHandleNull);
    assert!(header_map_get_all(&mut ch, &m, &text("k")).is_none());
    assert_eq!(take_last_error(&mut ch).unwrap().error_kind, HttpErrorKind::HttpHandleNull);
    assert!(!header_map_contains_key(&mut ch, &m, &text("k")));
    assert_eq!(take_last_error(&mut ch).unwrap().error_kind, HttpErrorKind::HttpHandleNull);
    assert_eq!(header_map_len(&mut ch, &m), -1);
    assert_eq!(take_last_error(&mut ch).unwrap().error_kind, HttpErrorKind::HttpHandleNull);
    assert_eq!(header_map_keys_len(&mut ch, &m), -1);
    assert_eq!(take_last_error(&mut ch).unwrap().error_kind, HttpErrorKind::HttpHandleNull);
    assert_eq!(header_map_capacity(&mut ch, &m), -1);
    assert_eq!(take_last_error(&mut ch).unwrap().error_kind, HttpErrorKind::HttpHandleNull);
    header_map_clear(&mut ch, &mut m);
    assert_eq!(take_last_error(&mut ch).unwrap().error_kind, HttpErrorKind::HttpHandleNull);
    header_map_reserve(&mut ch, &mut m, 1);
    assert_eq!(take_last_error(&mut ch).unwrap().error_kind, HttpErrorKind::HttpHandleNull);
    assert!(header_map_keys(&mut ch, &m).is_none());
    assert_eq!(take_last_error(&mut ch).unwrap().error_kind, HttpErrorKind::HttpHandleNull);
    assert!(header_map_values(&mut ch, &m).is_none());
    assert_eq!(take_last_error(&mut ch).unwrap().error_kind, HttpErrorKind::HttpHandleNull);
}

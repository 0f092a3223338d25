//! The trusted boundary to the protocol engine and to the platform.
//!
//! Every item here is believed, not proved: each wrapper's body makes one
//! outside call (plus argument and result conversion), and its contract
//! states no more than the outside source shows. The doc comment of each
//! item names the outside function relied on.

use vstd::prelude::*;

use crate::kinds::IoErrorClass;
use crate::text::{ascii_lower, readable_header_value, valid_header_name, valid_header_value};

verus! {

#[verifier::external_type_specification]
#[verifier::external_body]
#[verifier::reject_recursive_types(T)]
pub struct ExHeaderMap<T>(reqwest::header::HeaderMap<T>);

#[verifier::external_type_specification]
#[verifier::external_body]
pub struct ExHeaderValue(reqwest::header::HeaderValue);

/// What a header map holds: for each lower-cased name present, the values
/// under it, in insertion order, each rendered as the text it was set from.
/// A name is in the domain exactly when at least one value stands under it;
/// the domain holds lower-cased well-formed names only, and is finite.
pub uninterp spec fn hm_view(m: reqwest::header::HeaderMap) -> Map<Seq<char>, Seq<Seq<char>>>;

/// The view of a map with nothing in it.
pub open spec fn hm_empty_view() -> Map<Seq<char>, Seq<Seq<char>>> {
    Map::empty()
}

/// The total number of values a header map holds, over all names — what the
/// engine's length query counts. A second name for the same collection,
/// kept in step by every mutating wrapper.
pub uninterp spec fn hm_total(m: reqwest::header::HeaderMap) -> nat;

/// Relies on http's HeaderMap::new: a fresh map is empty.
#[verifier::external_body]
pub(crate) fn hm_new() -> (m: reqwest::header::HeaderMap)
    ensures
        hm_view(m) == hm_empty_view(),
        hm_total(m) == 0,
{
    reqwest::header::HeaderMap::new()
}

/// Relies on http's HeaderMap::insert, with the name parsed by
/// HeaderName::from_bytes and the value by HeaderValue::from_str: stores the
/// value under the lower-cased name and drops all previous values under it;
/// returns whether the name was present. from_bytes accepts exactly the
/// non-empty token names within the engine's length bound, and from_str
/// exactly the tab-or-non-control texts, so the two parses cannot fail
/// under this requires. The bound on the number of names keeps insert away
/// from every growth path that could hit the engine's capacity ceiling:
/// with fewer names than the bound, five times the name count stays under
/// the ceiling, so even the adaptive-hashing growth path cannot ask for a
/// table past it.
#[verifier::external_body]
pub(crate) fn hm_insert(m: &mut reqwest::header::HeaderMap, key: &str, value: &str) -> (had: bool)
    requires
        valid_header_name(key@),
        valid_header_value(value@),
        hm_view(*old(m)).dom().len() < 6552,
    ensures
        hm_view(*final(m)) == hm_view(*old(m)).insert(ascii_lower(key@), seq![value@]),
        had == hm_view(*old(m)).dom().contains(ascii_lower(key@)),
        hm_view(*final(m)).dom().finite(),
        hm_total(*final(m)) + (if hm_view(*old(m)).dom().contains(ascii_lower(key@)) {
            hm_view(*old(m))[ascii_lower(key@)].len()
        } else {
            0
        }) == hm_total(*old(m)) + 1,
{
    let name = reqwest::header::HeaderName::from_bytes(key.as_bytes()).unwrap();
    let val = reqwest::header::HeaderValue::from_str(value).unwrap();
    m.insert(name, val).is_some()
}

/// Relies on http's HeaderMap::append, with the name and value parsed as in
/// the insert wrapper: pushes the value to the end of the list under the
/// lower-cased name; returns whether the name was present.
#[verifier::external_body]
pub(crate) fn hm_append(m: &mut reqwest::header::HeaderMap, key: &str, value: &str) -> (had: bool)
    requires
        valid_header_name(key@),
        valid_header_value(value@),
        hm_view(*old(m)).dom().len() < 6552,
    ensures
        had == hm_view(*old(m)).dom().contains(ascii_lower(key@)),
        hm_view(*final(m)).dom().finite(),
        hm_total(*final(m)) == hm_total(*old(m)) + 1,
        hm_view(*final(m)) == hm_view(*old(m)).insert(
            ascii_lower(key@),
            (if hm_view(*old(m)).dom().contains(ascii_lower(key@)) {
                hm_view(*old(m))[ascii_lower(key@)]
            } else {
                Seq::<Seq<char>>::empty()
            }).push(value@),
        ),
{
    let name = reqwest::header::HeaderName::from_bytes(key.as_bytes()).unwrap();
    let val = reqwest::header::HeaderValue::from_str(value).unwrap();
    m.append(name, val)
}

/// Relies on http's HeaderMap::remove with a text key: drops every value
/// under the lower-cased name; a key that is not a well-formed name matches
/// nothing and leaves the map unchanged.
#[verifier::external_body]
pub(crate) fn hm_remove(m: &mut reqwest::header::HeaderMap, key: &str)
    ensures
        hm_view(*final(m)) == hm_view(*old(m)).remove(ascii_lower(key@)),
        hm_view(*final(m)).dom().finite(),
        hm_total(*final(m)) + (if hm_view(*old(m)).dom().contains(ascii_lower(key@)) {
            hm_view(*old(m))[ascii_lower(key@)].len()
        } else {
            0
        }) == hm_total(*old(m)),
{
    m.remove(key);
}

/// Relies on http's HeaderMap::get and HeaderValue::to_str: the first value
/// under the lower-cased name, present exactly when the name is; to_str
/// reads it back as text exactly when the value is visible-or-tab text.
#[verifier::external_body]
pub(crate) fn hm_get(m: &reqwest::header::HeaderMap, key: &str) -> (r: Option<
    Result<String, ()>,
>)
    ensures
        r is Some <==> hm_view(*m).dom().contains(ascii_lower(key@)),
        r matches Some(v) ==> (hm_view(*m)[ascii_lower(key@)].len() > 0 && (match v {
            Ok(s) => s@ == hm_view(*m)[ascii_lower(key@)][0] && readable_header_value(s@),
            Err(()) => !readable_header_value(hm_view(*m)[ascii_lower(key@)][0]),
        })),
{
    m.get(key).map(
        |v|
            match v.to_str() {
                Ok(s) => Ok(s.to_string()),
                Err(_) => Err(()),
            },
    )
}

/// Relies on http's HeaderMap::get_all and HeaderValue::to_str: every value
/// under the lower-cased name, in order; each comes back as its text when it
/// is visible-or-tab text and as the error marker otherwise. An absent or
/// ill-formed name has no values.
#[verifier::external_body]
pub(crate) fn hm_get_all(m: &reqwest::header::HeaderMap, key: &str) -> (r: Vec<
    Result<String, ()>,
>)
    ensures
        !hm_view(*m).dom().contains(ascii_lower(key@)) ==> r@.len() == 0,
        hm_view(*m).dom().contains(ascii_lower(key@)) ==> {
            let vals = hm_view(*m)[ascii_lower(key@)];
            r@.len() == vals.len() && (forall|i: int|
                0 <= i < vals.len() ==> (match #[trigger] r@[i] {
                    Ok(s) => s@ == vals[i] && readable_header_value(vals[i]),
                    Err(()) => !readable_header_value(vals[i]),
                }))
        },
{
    m.get_all(key)
        .iter()
        .map(
            |v|
                match v.to_str() {
                    Ok(s) => Ok(s.to_string()),
                    Err(_) => Err(()),
                },
        )
        .collect()
}

/// Relies on http's HeaderMap::contains_key: whether any value stands under
/// the lower-cased name; an ill-formed name matches nothing.
#[verifier::external_body]
pub(crate) fn hm_contains_key(m: &reqwest::header::HeaderMap, key: &str) -> (r: bool)
    ensures
        r == hm_view(*m).dom().contains(ascii_lower(key@)),
{
    m.contains_key(key)
}

/// Relies on http's HeaderMap::len: exactly the total number of values over
/// all names, which is at least the number of names, and zero exactly on
/// the empty map.
#[verifier::external_body]
pub(crate) fn hm_len(m: &reqwest::header::HeaderMap) -> (r: usize)
    ensures
        r == hm_total(*m),
        hm_view(*m).dom().len() <= r,
        (r == 0) <==> (hm_view(*m).dom() =~= Set::<Seq<char>>::empty()),
{
    m.len()
}

/// Relies on http's HeaderMap::keys_len: the number of distinct names,
/// never more than the total number of values, since every name carries at
/// least one.
#[verifier::external_body]
pub(crate) fn hm_keys_len(m: &reqwest::header::HeaderMap) -> (r: usize)
    ensures
        r == hm_view(*m).dom().len(),
        r <= hm_total(*m),
{
    m.keys_len()
}

/// Relies on http's HeaderMap::clear: removes every entry.
#[verifier::external_body]
pub(crate) fn hm_clear(m: &mut reqwest::header::HeaderMap)
    ensures
        hm_view(*final(m)) == hm_empty_view(),
        hm_total(*final(m)) == 0,
{
    m.clear();
}

/// Relies on http's HeaderMap::capacity: how many values the map can hold
/// without reallocating; an allocation detail, so nothing more is stated.
#[verifier::external_body]
pub(crate) fn hm_capacity(m: &reqwest::header::HeaderMap) -> usize {
    m.capacity()
}

/// Relies on http's HeaderMap::reserve: room for more entries, leaving the
/// contents unchanged; the bound keeps the request far from the engine's
/// capacity panic.
#[verifier::external_body]
pub(crate) fn hm_reserve(m: &mut reqwest::header::HeaderMap, additional: usize)
    requires
        additional <= 8192,
        hm_view(*old(m)).dom().len() < 6552,
    ensures
        hm_view(*final(m)) == hm_view(*old(m)),
        hm_total(*final(m)) == hm_total(*old(m)),
{
    m.reserve(additional);
}

/// Relies on http's HeaderMap::keys and HeaderName::as_str: every distinct
/// name exactly once, lower-cased, in the engine's iteration order.
#[verifier::external_body]
pub(crate) fn hm_keys(m: &reqwest::header::HeaderMap) -> (r: Vec<String>)
    ensures
        r@.len() == hm_view(*m).dom().len(),
        forall|i: int| 0 <= i < r@.len() ==> hm_view(*m).dom().contains((#[trigger] r@[i])@),
{
    m.keys().map(|k| k.as_str().to_string()).collect()
}

/// Relies on http's HeaderMap::values and HeaderValue::to_str: every value
/// in the map, each as its text when it is visible-or-tab text and as the
/// error marker otherwise, in the engine's iteration order; the empty map
/// has none.
#[verifier::external_body]
pub(crate) fn hm_values(m: &reqwest::header::HeaderMap) -> (r: Vec<Result<String, ()>>)
    ensures
        r@.len() == hm_total(*m),
{
    m.values()
        .map(
            |v|
                match v.to_str() {
                    Ok(s) => Ok(s.to_string()),
                    Err(_) => Err(()),
                },
        )
        .collect()
}

#[verifier::external_type_specification]
#[verifier::external_body]
pub struct ExReqwestError(reqwest::Error);

#[verifier::external_type_specification]
#[verifier::external_body]
pub struct ExIoErrorKind(std::io::ErrorKind);

#[verifier::external_type_specification]
#[verifier::external_body]
pub struct ExIoError(std::io::Error);

#[verifier::external_type_specification]
#[verifier::external_body]
pub struct ExClientBuilder(reqwest::blocking::ClientBuilder);

#[verifier::external_type_specification]
#[verifier::external_body]
pub struct ExClient(reqwest::blocking::Client);

#[verifier::external_type_specification]
#[verifier::external_body]
pub struct ExRequestBuilder(reqwest::blocking::RequestBuilder);

#[verifier::external_type_specification]
#[verifier::external_body]
pub struct ExRequest(reqwest::blocking::Request);

#[verifier::external_type_specification]
#[verifier::external_body]
pub struct ExResponse(reqwest::blocking::Response);

#[verifier::external_type_specification]
#[verifier::external_body]
pub struct ExProxy(reqwest::Proxy);

#[verifier::external_type_specification]
#[verifier::external_body]
pub struct ExCertificate(reqwest::Certificate);

/// Whether the text parses as an absolute address for a request. What the
/// parser accepts takes pages to state; the result depends on the text
/// alone, so it only gets this name.
pub uninterp spec fn is_url(s: Seq<char>) -> bool;

/// Whether the text parses as a numeric host address.
pub uninterp spec fn is_ip_addr(s: Seq<char>) -> bool;

/// Whether the text parses as a numeric host address with a port.
pub uninterp spec fn is_socket_addr(s: Seq<char>) -> bool;

/// Whether the text is accepted as a proxy scheme: the engine's shared
/// scheme intake, an address parse with a plain-protocol fallback, which
/// all three proxy constructors go through. A function of the text alone,
/// whose full grammar takes pages to state, so it only gets this name.
pub uninterp spec fn is_proxy_scheme(s: Seq<char>) -> bool;

/// Whether the bytes are accepted as a binary-encoded certificate by the
/// transport-security backend's parser — a pure parse of the bytes.
pub uninterp spec fn is_der_certificate(b: Seq<u8>) -> bool;

/// Relies on reqwest::Error::is_timeout: the engine's own timeout flag.
#[verifier::external_body]
pub(crate) fn err_is_timeout(e: &reqwest::Error) -> bool {
    e.is_timeout()
}

/// Relies on reqwest::Error::is_status: the engine's status-failure flag.
#[verifier::external_body]
pub(crate) fn err_is_status(e: &reqwest::Error) -> bool {
    e.is_status()
}

/// Relies on reqwest::Error::is_builder: the engine's builder-failure flag.
#[verifier::external_body]
pub(crate) fn err_is_builder(e: &reqwest::Error) -> bool {
    e.is_builder()
}

/// Relies on reqwest::Error::is_request: the engine's request-failure flag.
#[verifier::external_body]
pub(crate) fn err_is_request(e: &reqwest::Error) -> bool {
    e.is_request()
}

/// Relies on reqwest::Error::is_redirect: the engine's redirect-failure flag.
#[verifier::external_body]
pub(crate) fn err_is_redirect(e: &reqwest::Error) -> bool {
    e.is_redirect()
}

/// Relies on reqwest::Error::is_body: the engine's body-failure flag.
#[verifier::external_body]
pub(crate) fn err_is_body(e: &reqwest::Error) -> bool {
    e.is_body()
}

/// Relies on reqwest::Error::is_decode: the engine's decode-failure flag.
#[verifier::external_body]
pub(crate) fn err_is_decode(e: &reqwest::Error) -> bool {
    e.is_decode()
}

/// Relies on the Display rendering of reqwest::Error for the human-readable
/// message stored in the error channel.
#[verifier::external_body]
pub(crate) fn err_message(e: &reqwest::Error) -> String {
    format!("{}", e)
}

/// Relies on std::error::Error::source and Error::downcast_ref to walk the
/// failure's cause chain, and on std::io::Error::kind: the category of the
/// last input-output error in the chain, if the chain holds one.
#[verifier::external_body]
pub(crate) fn err_last_io_kind(e: &reqwest::Error) -> Option<std::io::ErrorKind> {
    let mut found = None;
    let mut source = std::error::Error::source(e);
    while let Some(c) = source {
        if let Some(io) = c.downcast_ref::<std::io::Error>() {
            found = Some(io.kind());
        }
        source = c.source();
    }
    found
}

/// Relies on matching std::io::ErrorKind: tells the connection-level
/// categories apart, one arm each.
#[verifier::external_body]
pub(crate) fn io_kind_class_conn(k: &std::io::ErrorKind) -> Option<IoErrorClass> {
    match k {
        std::io::ErrorKind::ConnectionRefused => Some(IoErrorClass::ConnectionRefused),
        std::io::ErrorKind::ConnectionReset => Some(IoErrorClass::ConnectionReset),
        std::io::ErrorKind::ConnectionAborted => Some(IoErrorClass::ConnectionAborted),
        std::io::ErrorKind::NotConnected => Some(IoErrorClass::NotConnected),
        std::io::ErrorKind::AddrInUse => Some(IoErrorClass::AddrInUse),
        std::io::ErrorKind::AddrNotAvailable => Some(IoErrorClass::AddrNotAvailable),
        std::io::ErrorKind::BrokenPipe => Some(IoErrorClass::BrokenPipe),
        std::io::ErrorKind::TimedOut => Some(IoErrorClass::TimedOut),
        std::io::ErrorKind::WouldBlock => Some(IoErrorClass::WouldBlock),
        std::io::ErrorKind::Interrupted => Some(IoErrorClass::Interrupted),
        _ => None,
    }
}

/// Relies on matching std::io::ErrorKind: tells the data-level categories
/// apart, one arm each; any unrecognized category is the catch-all class.
#[verifier::external_body]
pub(crate) fn io_kind_class_data(k: &std::io::ErrorKind) -> IoErrorClass {
    match k {
        std::io::ErrorKind::NotFound => IoErrorClass::NotFound,
        std::io::ErrorKind::PermissionDenied => IoErrorClass::PermissionDenied,
        std::io::ErrorKind::AlreadyExists => IoErrorClass::AlreadyExists,
        std::io::ErrorKind::InvalidInput => IoErrorClass::InvalidInput,
        std::io::ErrorKind::InvalidData => IoErrorClass::InvalidData,
        std::io::ErrorKind::WriteZero => IoErrorClass::WriteZero,
        std::io::ErrorKind::Unsupported => IoErrorClass::Unsupported,
        std::io::ErrorKind::UnexpectedEof => IoErrorClass::UnexpectedEof,
        std::io::ErrorKind::OutOfMemory => IoErrorClass::OutOfMemory,
        _ => IoErrorClass::OtherIo,
    }
}

/// The request and response versions the boundary distinguishes.
#[derive(Clone, Copy, Debug, PartialEq, Eq, Structural)]
pub enum HttpVersion {
    V09,
    V10,
    V11,
    V2,
    V3,
}

/// The transport-security versions the boundary distinguishes.
#[derive(Clone, Copy, Debug, PartialEq, Eq, Structural)]
pub enum TlsVersion {
    V1_0,
    V1_1,
    V1_2,
    V1_3,
}

/// Relies on reqwest's blocking ClientBuilder::new.
#[verifier::external_body]
pub(crate) fn cb_new() -> reqwest::blocking::ClientBuilder {
    reqwest::blocking::ClientBuilder::new()
}

/// Relies on ClientBuilder::default_headers.
#[verifier::external_body]
pub(crate) fn cb_default_headers(
    b: reqwest::blocking::ClientBuilder,
    headers: reqwest::header::HeaderMap,
) -> reqwest::blocking::ClientBuilder {
    b.default_headers(headers)
}

/// Relies on ClientBuilder::user_agent.
#[verifier::external_body]
pub(crate) fn cb_user_agent(
    b: reqwest::blocking::ClientBuilder,
    value: &str,
) -> reqwest::blocking::ClientBuilder {
    b.user_agent(value)
}

/// Relies on ClientBuilder::redirect and redirect::Policy::limited: at most
/// the given number of redirects will be followed.
#[verifier::external_body]
pub(crate) fn cb_redirect_limited(
    b: reqwest::blocking::ClientBuilder,
    max: usize,
) -> reqwest::blocking::ClientBuilder {
    b.redirect(reqwest::redirect::Policy::limited(max))
}

/// Relies on ClientBuilder::referer.
#[verifier::external_body]
pub(crate) fn cb_referer(
    b: reqwest::blocking::ClientBuilder,
    enable: bool,
) -> reqwest::blocking::ClientBuilder {
    b.referer(enable)
}

/// Relies on ClientBuilder::proxy.
#[verifier::external_body]
pub(crate) fn cb_proxy(
    b: reqwest::blocking::ClientBuilder,
    proxy: reqwest::Proxy,
) -> reqwest::blocking::ClientBuilder {
    b.proxy(proxy)
}

/// Relies on ClientBuilder::timeout.
#[verifier::external_body]
pub(crate) fn cb_timeout(
    b: reqwest::blocking::ClientBuilder,
    timeout: Option<core::time::Duration>,
) -> reqwest::blocking::ClientBuilder {
    b.timeout(timeout)
}

/// Relies on ClientBuilder::connect_timeout; an absent duration disables
/// the setting.
#[verifier::external_body]
pub(crate) fn cb_connect_timeout(
    b: reqwest::blocking::ClientBuilder,
    timeout: Option<core::time::Duration>,
) -> reqwest::blocking::ClientBuilder {
    b.connect_timeout(timeout)
}

/// Relies on ClientBuilder::pool_idle_timeout.
#[verifier::external_body]
pub(crate) fn cb_pool_idle_timeout(
    b: reqwest::blocking::ClientBuilder,
    timeout: Option<core::time::Duration>,
) -> reqwest::blocking::ClientBuilder {
    b.pool_idle_timeout(timeout)
}

/// Relies on ClientBuilder::pool_max_idle_per_host.
#[verifier::external_body]
pub(crate) fn cb_pool_max_idle_per_host(
    b: reqwest::blocking::ClientBuilder,
    max: usize,
) -> reqwest::blocking::ClientBuilder {
    b.pool_max_idle_per_host(max)
}

/// Relies on ClientBuilder::http1_title_case_headers.
#[verifier::external_body]
pub(crate) fn cb_http1_title_case_headers(
    b: reqwest::blocking::ClientBuilder,
) -> reqwest::blocking::ClientBuilder {
    b.http1_title_case_headers()
}

/// Relies on ClientBuilder::http1_allow_obsolete_multiline_headers_in_responses.
#[verifier::external_body]
pub(crate) fn cb_http1_allow_obsolete_multiline_headers_in_responses(
    b: reqwest::blocking::ClientBuilder,
    val: bool,
) -> reqwest::blocking::ClientBuilder {
    b.http1_allow_obsolete_multiline_headers_in_responses(val)
}

/// Relies on ClientBuilder::http1_only.
#[verifier::external_body]
pub(crate) fn cb_http1_only(
    b: reqwest::blocking::ClientBuilder,
) -> reqwest::blocking::ClientBuilder {
    b.http1_only()
}

/// Relies on ClientBuilder::http09_responses.
#[verifier::external_body]
pub(crate) fn cb_http09_responses(
    b: reqwest::blocking::ClientBuilder,
) -> reqwest::blocking::ClientBuilder {
    b.http09_responses()
}

/// Relies on ClientBuilder::http2_prior_knowledge.
#[verifier::external_body]
pub(crate) fn cb_http2_prior_knowledge(
    b: reqwest::blocking::ClientBuilder,
) -> reqwest::blocking::ClientBuilder {
    b.http2_prior_knowledge()
}

/// Relies on ClientBuilder::http2_initial_stream_window_size.
#[verifier::external_body]
pub(crate) fn cb_http2_initial_stream_window_size(
    b: reqwest::blocking::ClientBuilder,
    sz: Option<u32>,
) -> reqwest::blocking::ClientBuilder {
    b.http2_initial_stream_window_size(sz)
}

/// Relies on ClientBuilder::http2_initial_connection_window_size.
#[verifier::external_body]
pub(crate) fn cb_http2_initial_connection_window_size(
    b: reqwest::blocking::ClientBuilder,
    sz: Option<u32>,
) -> reqwest::blocking::ClientBuilder {
    b.http2_initial_connection_window_size(sz)
}

/// Relies on ClientBuilder::http2_adaptive_window.
#[verifier::external_body]
pub(crate) fn cb_http2_adaptive_window(
    b: reqwest::blocking::ClientBuilder,
    enabled: bool,
) -> reqwest::blocking::ClientBuilder {
    b.http2_adaptive_window(enabled)
}

/// Relies on ClientBuilder::http2_max_frame_size.
#[verifier::external_body]
pub(crate) fn cb_http2_max_frame_size(
    b: reqwest::blocking::ClientBuilder,
    sz: Option<u32>,
) -> reqwest::blocking::ClientBuilder {
    b.http2_max_frame_size(sz)
}

/// Relies on ClientBuilder::tcp_nodelay.
#[verifier::external_body]
pub(crate) fn cb_tcp_nodelay(
    b: reqwest::blocking::ClientBuilder,
    enabled: bool,
) -> reqwest::blocking::ClientBuilder {
    b.tcp_nodelay(enabled)
}

/// Relies on ClientBuilder::local_address and the platform's address parse:
/// the parse succeeds exactly when the text is a numeric host address, a
/// fact of the text alone.
#[verifier::external_body]
pub(crate) fn cb_local_address(
    b: reqwest::blocking::ClientBuilder,
    addr: &str,
) -> (r: Result<reqwest::blocking::ClientBuilder, ()>)
    ensures
        r is Ok <==> is_ip_addr(addr@),
{
    let parsed: core::net::IpAddr = match addr.parse() {
        Ok(a) => a,
        Err(_) => {
            return Err(());
        },
    };
    Ok(b.local_address(parsed))
}

/// Relies on ClientBuilder::tcp_keepalive.
#[verifier::external_body]
pub(crate) fn cb_tcp_keepalive(
    b: reqwest::blocking::ClientBuilder,
    timeout: Option<core::time::Duration>,
) -> reqwest::blocking::ClientBuilder {
    b.tcp_keepalive(timeout)
}

/// Relies on reqwest::Certificate::from_der: succeeds exactly when the
/// transport-security backend's parser accepts the bytes as a
/// binary-encoded certificate, a pure function of the bytes.
#[verifier::external_body]
pub(crate) fn cert_from_der(der: &Vec<u8>) -> (r: Result<reqwest::Certificate, reqwest::Error>)
    ensures
        r is Ok <==> is_der_certificate(der@),
{
    reqwest::Certificate::from_der(der.as_slice())
}

/// Relies on ClientBuilder::add_root_certificate.
#[verifier::external_body]
pub(crate) fn cb_add_root_certificate(
    b: reqwest::blocking::ClientBuilder,
    cert: reqwest::Certificate,
) -> reqwest::blocking::ClientBuilder {
    b.add_root_certificate(cert)
}

/// Relies on ClientBuilder::tls_built_in_root_certs.
#[verifier::external_body]
pub(crate) fn cb_tls_built_in_root_certs(
    b: reqwest::blocking::ClientBuilder,
    enable: bool,
) -> reqwest::blocking::ClientBuilder {
    b.tls_built_in_root_certs(enable)
}

/// Relies on ClientBuilder::danger_accept_invalid_certs.
#[verifier::external_body]
pub(crate) fn cb_danger_accept_invalid_certs(
    b: reqwest::blocking::ClientBuilder,
    accept: bool,
) -> reqwest::blocking::ClientBuilder {
    b.danger_accept_invalid_certs(accept)
}

/// Relies on ClientBuilder::tls_sni.
#[verifier::external_body]
pub(crate) fn cb_tls_sni(
    b: reqwest::blocking::ClientBuilder,
    enable: bool,
) -> reqwest::blocking::ClientBuilder {
    b.tls_sni(enable)
}

/// Relies on ClientBuilder::min_tls_version, telling the boundary's version
/// constants apart, one arm each.
#[verifier::external_body]
pub(crate) fn cb_min_tls_version(
    b: reqwest::blocking::ClientBuilder,
    v: &TlsVersion,
) -> reqwest::blocking::ClientBuilder {
    b.min_tls_version(
        match v {
            TlsVersion::V1_0 => reqwest::tls::Version::TLS_1_0,
            TlsVersion::V1_1 => reqwest::tls::Version::TLS_1_1,
            TlsVersion::V1_2 => reqwest::tls::Version::TLS_1_2,
            TlsVersion::V1_3 => reqwest::tls::Version::TLS_1_3,
        },
    )
}

/// Relies on ClientBuilder::max_tls_version, telling the boundary's version
/// constants apart, one arm each.
#[verifier::external_body]
pub(crate) fn cb_max_tls_version(
    b: reqwest::blocking::ClientBuilder,
    v: &TlsVersion,
) -> reqwest::blocking::ClientBuilder {
    b.max_tls_version(
        match v {
            TlsVersion::V1_0 => reqwest::tls::Version::TLS_1_0,
            TlsVersion::V1_1 => reqwest::tls::Version::TLS_1_1,
            TlsVersion::V1_2 => reqwest::tls::Version::TLS_1_2,
            TlsVersion::V1_3 => reqwest::tls::Version::TLS_1_3,
        },
    )
}

/// Relies on ClientBuilder::no_hickory_dns.
#[verifier::external_body]
pub(crate) fn cb_no_hickory_dns(
    b: reqwest::blocking::ClientBuilder,
) -> reqwest::blocking::ClientBuilder {
    b.no_hickory_dns()
}

/// Relies on ClientBuilder::hickory_dns.
#[verifier::external_body]
pub(crate) fn cb_hickory_dns(
    b: reqwest::blocking::ClientBuilder,
    enable: bool,
) -> reqwest::blocking::ClientBuilder {
    b.hickory_dns(enable)
}

/// Relies on ClientBuilder::https_only.
#[verifier::external_body]
pub(crate) fn cb_https_only(
    b: reqwest::blocking::ClientBuilder,
    enable: bool,
) -> reqwest::blocking::ClientBuilder {
    b.https_only(enable)
}

/// Relies on ClientBuilder::resolve and the platform's address parse: the
/// parse succeeds exactly when the text is a numeric address with a port, a
/// fact of the text alone.
#[verifier::external_body]
pub(crate) fn cb_resolve(
    b: reqwest::blocking::ClientBuilder,
    domain: &str,
    addr: &str,
) -> (r: Result<reqwest::blocking::ClientBuilder, ()>)
    ensures
        r is Ok <==> is_socket_addr(addr@),
{
    let parsed: core::net::SocketAddr = match addr.parse() {
        Ok(a) => a,
        Err(_) => {
            return Err(());
        },
    };
    Ok(b.resolve(domain, parsed))
}

/// Relies on ClientBuilder::resolve_to_addrs and the platform's address
/// parse. The whole list must parse; the error carries the position of the
/// first text that does not. The parse loop only converts the arguments,
/// one by one, for a call whose parsed items no verified type could hold.
#[verifier::external_body]
pub(crate) fn cb_resolve_to_addrs(
    b: reqwest::blocking::ClientBuilder,
    domain: &str,
    addrs: &Vec<String>,
) -> (r: Result<reqwest::blocking::ClientBuilder, usize>)
    ensures
        r is Ok <==> (forall|i: int|
            0 <= i < addrs@.len() ==> is_socket_addr((#[trigger] addrs@[i])@)),
        r matches Err(i) ==> (i < addrs@.len() && !is_socket_addr(addrs@[i as int]@) && (forall|
            j: int,
        |
            0 <= j < i ==> is_socket_addr((#[trigger] addrs@[j])@))),
{
    let mut parsed: Vec<core::net::SocketAddr> = Vec::new();
    for (i, a) in addrs.iter().enumerate() {
        match a.parse() {
            Ok(sa) => parsed.push(sa),
            Err(_) => {
                return Err(i);
            },
        }
    }
    Ok(b.resolve_to_addrs(domain, &parsed))
}

/// Relies on ClientBuilder::use_rustls_tls.
#[verifier::external_body]
pub(crate) fn cb_use_rustls_tls(
    b: reqwest::blocking::ClientBuilder,
) -> reqwest::blocking::ClientBuilder {
    b.use_rustls_tls()
}

/// Relies on ClientBuilder::use_native_tls.
#[verifier::external_body]
pub(crate) fn cb_use_native_tls(
    b: reqwest::blocking::ClientBuilder,
) -> reqwest::blocking::ClientBuilder {
    b.use_native_tls()
}

/// Relies on ClientBuilder::build: the engine decides whether its transport
/// stack can be initialized, so only the failure is typed.
#[verifier::external_body]
pub(crate) fn cb_build(
    b: reqwest::blocking::ClientBuilder,
) -> Result<reqwest::blocking::Client, reqwest::Error> {
    b.build()
}

/// Relies on Client::get.
#[verifier::external_body]
pub(crate) fn cl_get(
    c: &reqwest::blocking::Client,
    url: &str,
) -> reqwest::blocking::RequestBuilder {
    c.get(url)
}

/// Relies on Client::post.
#[verifier::external_body]
pub(crate) fn cl_post(
    c: &reqwest::blocking::Client,
    url: &str,
) -> reqwest::blocking::RequestBuilder {
    c.post(url)
}

/// Relies on Client::put.
#[verifier::external_body]
pub(crate) fn cl_put(
    c: &reqwest::blocking::Client,
    url: &str,
) -> reqwest::blocking::RequestBuilder {
    c.put(url)
}

/// Relies on Client::patch.
#[verifier::external_body]
pub(crate) fn cl_patch(
    c: &reqwest::blocking::Client,
    url: &str,
) -> reqwest::blocking::RequestBuilder {
    c.patch(url)
}

/// Relies on Client::delete.
#[verifier::external_body]
pub(crate) fn cl_delete(
    c: &reqwest::blocking::Client,
    url: &str,
) -> reqwest::blocking::RequestBuilder {
    c.delete(url)
}

/// Relies on Client::head.
#[verifier::external_body]
pub(crate) fn cl_head(
    c: &reqwest::blocking::Client,
    url: &str,
) -> reqwest::blocking::RequestBuilder {
    c.head(url)
}

/// Relies on Client::request and http's Method::from_bytes, which accepts
/// exactly the non-empty token texts.
#[verifier::external_body]
pub(crate) fn cl_request(
    c: &reqwest::blocking::Client,
    method: &str,
    url: &str,
) -> (r: Result<reqwest::blocking::RequestBuilder, ()>)
    ensures
        r is Ok <==> crate::text::is_method_token(method@),
{
    match reqwest::Method::from_bytes(method.as_bytes()) {
        Ok(m) => Ok(c.request(m, url)),
        Err(_) => Err(()),
    }
}

/// Relies on Client::execute: one blocking exchange over the network; what
/// comes back depends on the world, so only the failure is classified.
#[verifier::external_body]
pub(crate) fn engine_execute(
    c: &reqwest::blocking::Client,
    request: reqwest::blocking::Request,
) -> Result<reqwest::blocking::Response, reqwest::Error> {
    c.execute(request)
}

/// Relies on reqwest::Url::parse: whether the text is an absolute address,
/// a fact of the text alone.
#[verifier::external_body]
pub(crate) fn url_parse_ok(s: &str) -> (r: bool)
    ensures
        r == is_url(s@),
{
    reqwest::Url::parse(s).is_ok()
}

/// Relies on reqwest::Proxy::http: intercepts plain-protocol traffic;
/// succeeds exactly when the engine's shared scheme intake accepts the
/// text.
#[verifier::external_body]
pub(crate) fn proxy_http_new(scheme: &str) -> (r: Result<reqwest::Proxy, reqwest::Error>)
    ensures
        r is Ok <==> is_proxy_scheme(scheme@),
{
    reqwest::Proxy::http(scheme)
}

/// Relies on reqwest::Proxy::https, which goes through the same scheme
/// intake.
#[verifier::external_body]
pub(crate) fn proxy_https_new(scheme: &str) -> (r: Result<reqwest::Proxy, reqwest::Error>)
    ensures
        r is Ok <==> is_proxy_scheme(scheme@),
{
    reqwest::Proxy::https(scheme)
}

/// Relies on reqwest::Proxy::all, which goes through the same scheme
/// intake.
#[verifier::external_body]
pub(crate) fn proxy_all_new(scheme: &str) -> (r: Result<reqwest::Proxy, reqwest::Error>)
    ensures
        r is Ok <==> is_proxy_scheme(scheme@),
{
    reqwest::Proxy::all(scheme)
}

/// Relies on Duration::from_millis.
#[verifier::external_body]
pub(crate) fn duration_from_millis(ms: u64) -> core::time::Duration {
    core::time::Duration::from_millis(ms)
}

/// Relies on RequestBuilder::header; a name or value the engine refuses is
/// kept as a deferred builder failure, surfaced when the request is built.
#[verifier::external_body]
pub(crate) fn rb_header(
    rb: reqwest::blocking::RequestBuilder,
    key: &str,
    value: &str,
) -> reqwest::blocking::RequestBuilder {
    rb.header(key, value)
}

/// Relies on RequestBuilder::headers: replaces the values of every name the
/// given map holds.
#[verifier::external_body]
pub(crate) fn rb_headers(
    rb: reqwest::blocking::RequestBuilder,
    headers: reqwest::header::HeaderMap,
) -> reqwest::blocking::RequestBuilder {
    rb.headers(headers)
}

/// Relies on RequestBuilder::basic_auth.
#[verifier::external_body]
pub(crate) fn rb_basic_auth(
    rb: reqwest::blocking::RequestBuilder,
    username: &str,
    password: Option<&String>,
) -> reqwest::blocking::RequestBuilder {
    rb.basic_auth(username, password.map(|p| p.as_str()))
}

/// Relies on RequestBuilder::bearer_auth.
#[verifier::external_body]
pub(crate) fn rb_bearer_auth(
    rb: reqwest::blocking::RequestBuilder,
    token: &str,
) -> reqwest::blocking::RequestBuilder {
    rb.bearer_auth(token)
}

/// Relies on RequestBuilder::body with an owned byte buffer.
#[verifier::external_body]
pub(crate) fn rb_body_bytes(
    rb: reqwest::blocking::RequestBuilder,
    bytes: Vec<u8>,
) -> reqwest::blocking::RequestBuilder {
    rb.body(bytes)
}

/// Relies on RequestBuilder::body with owned text.
#[verifier::external_body]
pub(crate) fn rb_body_string(
    rb: reqwest::blocking::RequestBuilder,
    body: String,
) -> reqwest::blocking::RequestBuilder {
    rb.body(body)
}

/// Relies on RequestBuilder::timeout.
#[verifier::external_body]
pub(crate) fn rb_timeout(
    rb: reqwest::blocking::RequestBuilder,
    timeout: core::time::Duration,
) -> reqwest::blocking::RequestBuilder {
    rb.timeout(timeout)
}

/// Relies on RequestBuilder::query over a list of text pairs: appends them
/// to the address's query string.
#[verifier::external_body]
pub(crate) fn rb_query(
    rb: reqwest::blocking::RequestBuilder,
    pairs: &Vec<(String, String)>,
) -> reqwest::blocking::RequestBuilder {
    rb.query(pairs)
}

/// Relies on RequestBuilder::version, telling the boundary's version
/// constants apart, one arm each.
#[verifier::external_body]
pub(crate) fn rb_version(
    rb: reqwest::blocking::RequestBuilder,
    v: &HttpVersion,
) -> reqwest::blocking::RequestBuilder {
    rb.version(
        match v {
            HttpVersion::V09 => reqwest::Version::HTTP_09,
            HttpVersion::V10 => reqwest::Version::HTTP_10,
            HttpVersion::V11 => reqwest::Version::HTTP_11,
            HttpVersion::V2 => reqwest::Version::HTTP_2,
            HttpVersion::V3 => reqwest::Version::HTTP_3,
        },
    )
}

/// Relies on RequestBuilder::form over a list of text pairs: sets the body
/// to their form encoding and the content type to match.
#[verifier::external_body]
pub(crate) fn rb_form(
    rb: reqwest::blocking::RequestBuilder,
    pairs: &Vec<(String, String)>,
) -> reqwest::blocking::RequestBuilder {
    rb.form(pairs)
}

/// Relies on RequestBuilder::json over a list of text pairs: sets the body
/// to their structured encoding and the content type to match.
#[verifier::external_body]
pub(crate) fn rb_json(
    rb: reqwest::blocking::RequestBuilder,
    pairs: &Vec<(String, String)>,
) -> reqwest::blocking::RequestBuilder {
    rb.json(pairs)
}

/// Relies on RequestBuilder::build: the engine reports here any failure a
/// configuration call deferred.
#[verifier::external_body]
pub(crate) fn rb_build(
    rb: reqwest::blocking::RequestBuilder,
) -> Result<reqwest::blocking::Request, reqwest::Error> {
    rb.build()
}

/// Relies on RequestBuilder::send: one blocking exchange over the network;
/// what comes back depends on the world, so only the failure is classified.
#[verifier::external_body]
pub(crate) fn engine_send(
    rb: reqwest::blocking::RequestBuilder,
) -> Result<reqwest::blocking::Response, reqwest::Error> {
    rb.send()
}

/// Relies on RequestBuilder::try_clone: a copy exists exactly when the body
/// is not a stream, a judgement left to the engine.
#[verifier::external_body]
pub(crate) fn rb_try_clone(
    rb: &reqwest::blocking::RequestBuilder,
) -> Option<reqwest::blocking::RequestBuilder> {
    rb.try_clone()
}

/// Relies on blocking Response::status and StatusCode::as_u16, which the
/// engine keeps within the protocol's three-digit range.
#[verifier::external_body]
pub(crate) fn resp_status(r: &reqwest::blocking::Response) -> (s: u16)
    ensures
        100 <= s < 1000,
{
    r.status().as_u16()
}

/// Relies on blocking Response::headers: a copy of the response's header
/// map, whose set of names is finite like any real map's.
#[verifier::external_body]
pub(crate) fn resp_headers(r: &reqwest::blocking::Response) -> (m: reqwest::header::HeaderMap)
    ensures
        hm_view(m).dom().finite(),
{
    r.headers().clone()
}

/// Relies on blocking Response::version, telling the engine's version
/// constants apart, one arm each; anything else is reported as the newest.
#[verifier::external_body]
pub(crate) fn resp_version(r: &reqwest::blocking::Response) -> HttpVersion {
    if r.version() == reqwest::Version::HTTP_09 {
        HttpVersion::V09
    } else if r.version() == reqwest::Version::HTTP_10 {
        HttpVersion::V10
    } else if r.version() == reqwest::Version::HTTP_11 {
        HttpVersion::V11
    } else if r.version() == reqwest::Version::HTTP_2 {
        HttpVersion::V2
    } else {
        HttpVersion::V3
    }
}

/// Relies on blocking Response::url and its Display rendering: the final
/// address of the exchange.
#[verifier::external_body]
pub(crate) fn resp_url_string(r: &reqwest::blocking::Response) -> String {
    r.url().to_string()
}

/// Relies on blocking Response::remote_addr and its Display rendering.
#[verifier::external_body]
pub(crate) fn resp_remote_addr(r: &reqwest::blocking::Response) -> Option<String> {
    r.remote_addr().map(|a| a.to_string())
}

/// Relies on blocking Response::content_length.
#[verifier::external_body]
pub(crate) fn resp_content_length(r: &reqwest::blocking::Response) -> Option<u64> {
    r.content_length()
}

/// Relies on blocking Response::text: decodes the whole body, consuming the
/// response.
#[verifier::external_body]
pub(crate) fn engine_text(r: reqwest::blocking::Response) -> Result<String, reqwest::Error> {
    r.text()
}

/// Relies on blocking Response::text_with_charset: decodes the whole body
/// with the given fallback encoding, consuming the response.
#[verifier::external_body]
pub(crate) fn engine_text_with_charset(
    r: reqwest::blocking::Response,
    default_encoding: &str,
) -> Result<String, reqwest::Error> {
    r.text_with_charset(default_encoding)
}

/// Relies on blocking Response::bytes: reads the whole body, consuming the
/// response.
#[verifier::external_body]
pub(crate) fn engine_bytes(r: reqwest::blocking::Response) -> Result<Vec<u8>, reqwest::Error> {
    r.bytes().map(|b| b.to_vec())
}

/// Relies on blocking Response::copy_to: streams the whole body into an
/// owned buffer, leaving the response object behind.
#[verifier::external_body]
pub(crate) fn engine_copy_to(
    r: &mut reqwest::blocking::Response,
) -> Result<Vec<u8>, reqwest::Error> {
    let mut buf: Vec<u8> = Vec::new();
    match r.copy_to(&mut buf) {
        Ok(_) => Ok(buf),
        Err(e) => Err(e),
    }
}

/// Relies on the Read implementation of the blocking Response: fills a
/// prefix of the buffer and says how much, never past the buffer's length,
/// which it leaves unchanged.
#[verifier::external_body]
pub(crate) fn engine_read(
    r: &mut reqwest::blocking::Response,
    buf: &mut Vec<u8>,
) -> (res: Result<usize, std::io::Error>)
    ensures
        final(buf)@.len() == old(buf)@.len(),
        res matches Ok(n) ==> n <= old(buf)@.len(),
{
    std::io::Read::read(r, buf.as_mut_slice())
}

/// Relies on std::io::Error::kind.
#[verifier::external_body]
pub(crate) fn io_err_kind_of(e: &std::io::Error) -> std::io::ErrorKind {
    e.kind()
}

/// Relies on the Display rendering of std::io::Error for the stored
/// message.
#[verifier::external_body]
pub(crate) fn io_err_message(e: &std::io::Error) -> String {
    format!("{}", e)
}

/// Relies on std::io::Error::get_ref and error downcasting: the engine
/// failure wrapped inside a read error, if it carries one.
#[verifier::external_body]
pub(crate) fn io_inner_engine(e: &std::io::Error) -> Option<&reqwest::Error> {
    e.get_ref().and_then(|i| i.downcast_ref::<reqwest::Error>())
}

/// Relies on std::io::Error::get_ref and error downcasting: the
/// input-output failure wrapped inside a read error, if it carries one.
#[verifier::external_body]
pub(crate) fn io_inner_io(e: &std::io::Error) -> Option<&std::io::Error> {
    e.get_ref().and_then(|i| i.downcast_ref::<std::io::Error>())
}

} // verus!

//! The consuming builder chain for requests, with a ghost model of the
//! accumulated configuration, and the built-request handle it produces.
//!
//! As with the client builder, every configuration call consumes its input
//! handle and returns a fresh one or the null handle; a failed argument
//! releases the input rather than returning it. The ghost model keeps the
//! method and address the chain started from and a map from tunable to
//! chosen value; calls that write the same underlying engine setting share
//! one key.

use vstd::prelude::*;
use vstd::string::StringExecFns;

use crate::channel::{holds_kind, update_last_error, ErrorChannel};
use crate::engine;
use crate::engine::{hm_view, HttpVersion};
use crate::kinds::HttpErrorKind;
use crate::response::ResponseHandle;
use crate::text::{pair_view, pairs_to_tuples, to_rust_str, Pair, TextArg};

verus! {

/// The tunables a request builder accumulates.
#[derive(PartialEq, Eq, Structural)]
pub enum RbKey {
    /// Headers added one pair at a time.
    HeaderList,
    /// Whole header maps merged in.
    HeaderMaps,
    /// The authorization header, whichever call wrote it last.
    Auth,
    /// The body, whichever call wrote it last.
    Body,
    Timeout,
    Query,
    Version,
}

/// The value a request tunable holds in the model.
pub enum RbVal {
    PairList(Seq<(Seq<char>, Seq<char>)>),
    MapList(Seq<Map<Seq<char>, Seq<Seq<char>>>>),
    Basic(Seq<char>, Option<Seq<char>>),
    Bearer(Seq<char>),
    Bytes(Seq<u8>),
    Text(Seq<char>),
    FormPairs(Seq<(Seq<char>, Seq<char>)>),
    JsonPairs(Seq<(Seq<char>, Seq<char>)>),
    Millis(int),
    Version(HttpVersion),
}

/// A request builder handle: the engine's builder, with the method and
/// address the chain started from and the ghost model of everything
/// configured since.
pub struct RequestBuilderHandle {
    inner: reqwest::blocking::RequestBuilder,
    method: Ghost<Seq<char>>,
    url: Ghost<Seq<char>>,
    config: Ghost<Map<RbKey, RbVal>>,
}

impl View for RequestBuilderHandle {
    type V = Map<RbKey, RbVal>;

    closed spec fn view(&self) -> Map<RbKey, RbVal> {
        self.config@
    }
}

impl RequestBuilderHandle {
    /// The method the chain started from.
    pub closed spec fn method_view(&self) -> Seq<char> {
        self.method@
    }

    /// The address the chain started from.
    pub closed spec fn url_view(&self) -> Seq<char> {
        self.url@
    }

    /// Wrap a fresh engine builder made for the given method and address.
    pub(crate) fn start(
        inner: reqwest::blocking::RequestBuilder,
        Ghost(method): Ghost<Seq<char>>,
        Ghost(url): Ghost<Seq<char>>,
    ) -> (r: Self)
        ensures
            r.method_view() == method,
            r.url_view() == url,
            r@ == Map::<RbKey, RbVal>::empty(),
    {
        RequestBuilderHandle {
            inner,
            method: Ghost(method),
            url: Ghost(url),
            config: Ghost(Map::empty()),
        }
    }
}

/// A built, immutable request, ready to be executed once.
pub struct RequestHandle {
    inner: reqwest::blocking::Request,
    method: Ghost<Seq<char>>,
    url: Ghost<Seq<char>>,
    config: Ghost<Map<RbKey, RbVal>>,
}

impl View for RequestHandle {
    type V = Map<RbKey, RbVal>;

    closed spec fn view(&self) -> Map<RbKey, RbVal> {
        self.config@
    }
}

impl RequestHandle {
    /// The method the request was built for.
    pub closed spec fn method_view(&self) -> Seq<char> {
        self.method@
    }

    /// The address the request was built for.
    pub closed spec fn url_view(&self) -> Seq<char> {
        self.url@
    }

    /// Hand the engine's request over to the executing call.
    pub(crate) fn into_engine(self) -> reqwest::blocking::Request {
        self.inner
    }
}

/// Unwrap the engine's builder so the unverified shell can attach what the
/// verified core cannot hold — a streamed file body; the ghost model is
/// surrendered with it.
pub fn request_builder_into_engine(handle: Option<RequestBuilderHandle>) -> (r: Option<
    reqwest::blocking::RequestBuilder,
>)
    ensures
        r is Some <==> handle is Some,
{
    match handle {
        Some(b) => Some(b.inner),
        None => None,
    }
}

/// Wrap an engine builder the shell configured on its own; nothing is known
/// of its configuration, so the model starts from an arbitrary state.
pub fn request_builder_from_engine(rb: reqwest::blocking::RequestBuilder) -> RequestBuilderHandle {
    RequestBuilderHandle {
        inner: rb,
        method: Ghost(arbitrary()),
        url: Ghost(arbitrary()),
        config: Ghost(arbitrary()),
    }
}

/// Release a built request without executing it; a no-op on the null
/// handle.
pub fn request_destroy(handle: Option<RequestHandle>) {
    let _ = handle;
}

/// Release a request builder; a no-op on the null handle.
pub fn request_builder_destroy(handle: Option<RequestBuilderHandle>) {
    let _ = handle;
}

/// The headers added one pair at a time so far.
pub open spec fn rb_header_list(m: Map<RbKey, RbVal>) -> Seq<(Seq<char>, Seq<char>)> {
    if m.dom().contains(RbKey::HeaderList) && m[RbKey::HeaderList] is PairList {
        m[RbKey::HeaderList]->PairList_0
    } else {
        Seq::empty()
    }
}

/// The whole header maps merged in so far.
pub open spec fn rb_header_maps(m: Map<RbKey, RbVal>) -> Seq<Map<Seq<char>, Seq<Seq<char>>>> {
    if m.dom().contains(RbKey::HeaderMaps) && m[RbKey::HeaderMaps] is MapList {
        m[RbKey::HeaderMaps]->MapList_0
    } else {
        Seq::empty()
    }
}

/// The query pairs appended so far.
pub open spec fn rb_query_pairs(m: Map<RbKey, RbVal>) -> Seq<(Seq<char>, Seq<char>)> {
    if m.dom().contains(RbKey::Query) && m[RbKey::Query] is PairList {
        m[RbKey::Query]->PairList_0
    } else {
        Seq::empty()
    }
}

/// The model's update for one added header pair.
pub open spec fn with_header(
    m: Map<RbKey, RbVal>,
    name: Seq<char>,
    value: Seq<char>,
) -> Map<RbKey, RbVal> {
    m.insert(RbKey::HeaderList, RbVal::PairList(rb_header_list(m).push((name, value))))
}

/// The model's update for one merged header map.
pub open spec fn with_header_map(
    m: Map<RbKey, RbVal>,
    entries: Map<Seq<char>, Seq<Seq<char>>>,
) -> Map<RbKey, RbVal> {
    m.insert(RbKey::HeaderMaps, RbVal::MapList(rb_header_maps(m).push(entries)))
}

/// The model's update for appended query pairs.
pub open spec fn with_query(
    m: Map<RbKey, RbVal>,
    pairs: Seq<(Seq<char>, Seq<char>)>,
) -> Map<RbKey, RbVal> {
    m.insert(RbKey::Query, RbVal::PairList(rb_query_pairs(m) + pairs))
}

/// Add one header to the request. The engine defers judging the name and
/// value until the request is built, so the pair is recorded as given.
pub fn request_builder_header(
    ch: &mut ErrorChannel,
    handle: Option<RequestBuilderHandle>,
    key: &TextArg,
    value: &TextArg,
) -> (r: Option<RequestBuilderHandle>)
    ensures
        handle is None ==> (r is None && holds_kind(*final(ch), HttpErrorKind::HttpHandleNull)),
        (handle is Some && key is Null) ==> (r is None && *final(ch) == *old(ch)),
        (handle is Some && key is Malformed) ==> (r is None && holds_kind(
            *final(ch),
            HttpErrorKind::CharConversion,
        )),
        (handle is Some && key is Text && value is Null) ==> (r is None && *final(ch) == *old(ch)),
        (handle is Some && key is Text && value is Malformed) ==> (r is None && holds_kind(
            *final(ch),
            HttpErrorKind::CharConversion,
        )),
        (handle is Some && key is Text && value is Text) ==> (*final(ch) == *old(ch) && r is Some
            && r->0@ == with_header(handle->0@, key->0@, value->0@) && r->0.method_view()
            == handle->0.method_view() && r->0.url_view() == handle->0.url_view()),
{
    let b = match handle {
        Some(b) => b,
        None => {
            update_last_error(
                ch,
                HttpErrorKind::HttpHandleNull,
                String::from_str("request_builder is null when use header"),
            );
            return None;
        },
    };
    let k = match to_rust_str(ch, key, "parse key error") {
        Some(k) => k,
        None => {
            return None;
        },
    };
    let v = match to_rust_str(ch, value, "parse value error") {
        Some(v) => v,
        None => {
            return None;
        },
    };
    let RequestBuilderHandle { inner, method, url, config } = b;
    Some(
        RequestBuilderHandle {
            inner: engine::rb_header(inner, k.as_str(), v.as_str()),
            method,
            url,
            config: Ghost(with_header(config@, k@, v@)),
        },
    )
}

/// Merge a whole header map into the request, consuming the map handle; a
/// null map is a null-handle failure like a null builder.
pub fn request_builder_headers(
    ch: &mut ErrorChannel,
    handle: Option<RequestBuilderHandle>,
    headers: Option<reqwest::header::HeaderMap>,
) -> (r: Option<RequestBuilderHandle>)
    ensures
        (handle is None || headers is None) ==> (r is None && holds_kind(
            *final(ch),
            HttpErrorKind::HttpHandleNull,
        )),
        (handle is Some && headers is Some) ==> (*final(ch) == *old(ch) && r is Some && r->0@
            == with_header_map(handle->0@, hm_view(headers->0)) && r->0.method_view()
            == handle->0.method_view() && r->0.url_view() == handle->0.url_view()),
{
    match (handle, headers) {
        (Some(b), Some(m)) => {
            let RequestBuilderHandle { inner, method, url, config } = b;
            let ghost entries = hm_view(m);
            Some(
                RequestBuilderHandle {
                    inner: engine::rb_headers(inner, m),
                    method,
                    url,
                    config: Ghost(with_header_map(config@, entries)),
                },
            )
        },
        _ => {
            update_last_error(
                ch,
                HttpErrorKind::HttpHandleNull,
                String::from_str("request_builder or headers is null when use headers"),
            );
            None
        },
    }
}

/// Enable basic authentication. The username must decode; the password is
/// optional, and a malformed password is recorded and sent as absent, as
/// the boundary has always done.
pub fn request_builder_basic_auth(
    ch: &mut ErrorChannel,
    handle: Option<RequestBuilderHandle>,
    username: &TextArg,
    password: &TextArg,
) -> (r: Option<RequestBuilderHandle>)
    ensures
        handle is None ==> (r is None && holds_kind(*final(ch), HttpErrorKind::HttpHandleNull)),
        (handle is Some && username is Null) ==> (r is None && *final(ch) == *old(ch)),
        (handle is Some && username is Malformed) ==> (r is None && holds_kind(
            *final(ch),
            HttpErrorKind::CharConversion,
        )),
        (handle is Some && username is Text) ==> (r is Some && r->0@ == handle->0@.insert(
            RbKey::Auth,
            RbVal::Basic(
                username->0@,
                (if password is Text {
                    Some(password->0@)
                } else {
                    None
                }),
            ),
        ) && r->0.method_view() == handle->0.method_view() && r->0.url_view() == handle->0.url_view()),
        (handle is Some && username is Text && password is Malformed) ==> holds_kind(
            *final(ch),
            HttpErrorKind::CharConversion,
        ),
        (handle is Some && username is Text && !(password is Malformed)) ==> *final(ch) == *old(
            ch,
        ),
{
    let b = match handle {
        Some(b) => b,
        None => {
            update_last_error(
                ch,
                HttpErrorKind::HttpHandleNull,
                String::from_str("request_builder is null when use basic_auth"),
            );
            return None;
        },
    };
    let u = match to_rust_str(ch, username, "parse username error") {
        Some(u) => u,
        None => {
            return None;
        },
    };
    let p = to_rust_str(ch, password, "parse password error");
    let RequestBuilderHandle { inner, method, url, config } = b;
    let ghost pview = if password is Text {
        Some(password->0@)
    } else {
        None
    };
    Some(
        RequestBuilderHandle {
            inner: engine::rb_basic_auth(inner, u.as_str(), p),
            method,
            url,
            config: Ghost(config@.insert(RbKey::Auth, RbVal::Basic(u@, pview))),
        },
    )
}

/// Enable bearer authentication; shares its tunable with basic
/// authentication, whichever call comes last wins.
pub fn request_builder_bearer_auth(
    ch: &mut ErrorChannel,
    handle: Option<RequestBuilderHandle>,
    token: &TextArg,
) -> (r: Option<RequestBuilderHandle>)
    ensures
        handle is None ==> (r is None && holds_kind(*final(ch), HttpErrorKind::HttpHandleNull)),
        (handle is Some && token is Null) ==> (r is None && *final(ch) == *old(ch)),
        (handle is Some && token is Malformed) ==> (r is None && holds_kind(
            *final(ch),
            HttpErrorKind::CharConversion,
        )),
        (handle is Some && token is Text) ==> (*final(ch) == *old(ch) && r is Some && r->0@
            == handle->0@.insert(RbKey::Auth, RbVal::Bearer(token->0@)) && r->0.method_view()
            == handle->0.method_view() && r->0.url_view() == handle->0.url_view()),
{
    let b = match handle {
        Some(b) => b,
        None => {
            update_last_error(
                ch,
                HttpErrorKind::HttpHandleNull,
                String::from_str("request_builder is null when use bearer_auth"),
            );
            return None;
        },
    };
    let t = match to_rust_str(ch, token, "parse token error") {
        Some(t) => t,
        None => {
            return None;
        },
    };
    let RequestBuilderHandle { inner, method, url, config } = b;
    Some(
        RequestBuilderHandle {
            inner: engine::rb_bearer_auth(inner, t.as_str()),
            method,
            url,
            config: Ghost(config@.insert(RbKey::Auth, RbVal::Bearer(t@))),
        },
    )
}

/// Set the request body from a byte buffer; shares its tunable with the
/// other body calls, whichever comes last wins.
pub fn request_builder_body_bytes(
    ch: &mut ErrorChannel,
    handle: Option<RequestBuilderHandle>,
    bytes: Vec<u8>,
) -> (r: Option<RequestBuilderHandle>)
    ensures
        handle is None ==> (r is None && holds_kind(*final(ch), HttpErrorKind::HttpHandleNull)),
        handle is Some ==> (*final(ch) == *old(ch) && r is Some && r->0@ == handle->0@.insert(
            RbKey::Body,
            RbVal::Bytes(bytes@),
        ) && r->0.method_view() == handle->0.method_view() && r->0.url_view() == handle->0.url_view()),
{
    match handle {
        Some(b) => {
            let RequestBuilderHandle { inner, method, url, config } = b;
            let ghost bview = bytes@;
            Some(
                RequestBuilderHandle {
                    inner: engine::rb_body_bytes(inner, bytes),
                    method,
                    url,
                    config: Ghost(config@.insert(RbKey::Body, RbVal::Bytes(bview))),
                },
            )
        },
        None => {
            update_last_error(
                ch,
                HttpErrorKind::HttpHandleNull,
                String::from_str("request_builder is null when use body"),
            );
            None
        },
    }
}

/// Set the request body from text; shares its tunable with the other body
/// calls.
pub fn request_builder_body_string(
    ch: &mut ErrorChannel,
    handle: Option<RequestBuilderHandle>,
    body: &TextArg,
) -> (r: Option<RequestBuilderHandle>)
    ensures
        handle is None ==> (r is None && holds_kind(*final(ch), HttpErrorKind::HttpHandleNull)),
        (handle is Some && body is Null) ==> (r is None && *final(ch) == *old(ch)),
        (handle is Some && body is Malformed) ==> (r is None && holds_kind(
            *final(ch),
            HttpErrorKind::CharConversion,
        )),
        (handle is Some && body is Text) ==> (*final(ch) == *old(ch) && r is Some && r->0@
            == handle->0@.insert(RbKey::Body, RbVal::Text(body->0@)) && r->0.method_view()
            == handle->0.method_view() && r->0.url_view() == handle->0.url_view()),
{
    let b = match handle {
        Some(b) => b,
        None => {
            update_last_error(
                ch,
                HttpErrorKind::HttpHandleNull,
                String::from_str("request_builder is null when use body"),
            );
            return None;
        },
    };
    let s = match to_rust_str(ch, body, "parse body string error") {
        Some(s) => s,
        None => {
            return None;
        },
    };
    let owned = s.clone();
    let RequestBuilderHandle { inner, method, url, config } = b;
    Some(
        RequestBuilderHandle {
            inner: engine::rb_body_string(inner, owned),
            method,
            url,
            config: Ghost(config@.insert(RbKey::Body, RbVal::Text(s@))),
        },
    )
}

/// Set a budget for this request alone, from connecting until the body has
/// been read, overriding the client's own.
pub fn request_builder_timeout(
    ch: &mut ErrorChannel,
    handle: Option<RequestBuilderHandle>,
    millisecond: u64,
) -> (r: Option<RequestBuilderHandle>)
    ensures
        handle is None ==> (r is None && holds_kind(*final(ch), HttpErrorKind::HttpHandleNull)),
        handle is Some ==> (*final(ch) == *old(ch) && r is Some && r->0@ == handle->0@.insert(
            RbKey::Timeout,
            RbVal::Millis(millisecond as int),
        ) && r->0.method_view() == handle->0.method_view() && r->0.url_view() == handle->0.url_view()),
{
    match handle {
        Some(b) => {
            let RequestBuilderHandle { inner, method, url, config } = b;
            let d = engine::duration_from_millis(millisecond);
            Some(
                RequestBuilderHandle {
                    inner: engine::rb_timeout(inner, d),
                    method,
                    url,
                    config: Ghost(
                        config@.insert(RbKey::Timeout, RbVal::Millis(millisecond as int)),
                    ),
                },
            )
        },
        None => {
            update_last_error(
                ch,
                HttpErrorKind::HttpHandleNull,
                String::from_str("request_builder is null when use timeout"),
            );
            None
        },
    }
}

/// Append pairs to the address's query string; earlier pairs stay, so the
/// call can be repeated.
pub fn request_builder_query(
    ch: &mut ErrorChannel,
    handle: Option<RequestBuilderHandle>,
    querys: &Vec<Pair>,
) -> (r: Option<RequestBuilderHandle>)
    ensures
        handle is None ==> (r is None && holds_kind(*final(ch), HttpErrorKind::HttpHandleNull)),
        handle is Some ==> (r is Some && r->0@ == with_query(
            handle->0@,
            querys@.map_values(|p: Pair| pair_view(p)),
        ) && r->0.method_view() == handle->0.method_view() && r->0.url_view() == handle->0.url_view()),
        (handle is Some && (forall|i: int|
            0 <= i < querys@.len() ==> (!((#[trigger] querys@[i]).key is Malformed) && !(
            querys@[i].value is Malformed)))) ==> *final(ch) == *old(ch),
{
    let b = match handle {
        Some(b) => b,
        None => {
            update_last_error(
                ch,
                HttpErrorKind::HttpHandleNull,
                String::from_str("request_builder is null when use query"),
            );
            return None;
        },
    };
    let tuples = pairs_to_tuples(ch, querys);
    let ghost qview = querys@.map_values(|p: Pair| pair_view(p));
    let RequestBuilderHandle { inner, method, url, config } = b;
    Some(
        RequestBuilderHandle {
            inner: engine::rb_query(inner, &tuples),
            method,
            url,
            config: Ghost(with_query(config@, qview)),
        },
    )
}

/// The protocol version a version text names, if any.
pub open spec fn http_version_of(s: Seq<char>) -> Option<HttpVersion> {
    if s == "0.9"@ {
        Some(HttpVersion::V09)
    } else if s == "1.0"@ {
        Some(HttpVersion::V10)
    } else if s == "1.1"@ {
        Some(HttpVersion::V11)
    } else if s == "2"@ {
        Some(HttpVersion::V2)
    } else if s == "3"@ {
        Some(HttpVersion::V3)
    } else {
        None
    }
}

/// Parse a version text into the protocol version it names.
fn parse_http_version(s: &String) -> (r: Option<HttpVersion>)
    ensures
        r == http_version_of(s@),
{
    if s.eq(&String::from_str("0.9")) {
        Some(HttpVersion::V09)
    } else if s.eq(&String::from_str("1.0")) {
        Some(HttpVersion::V10)
    } else if s.eq(&String::from_str("1.1")) {
        Some(HttpVersion::V11)
    } else if s.eq(&String::from_str("2")) {
        Some(HttpVersion::V2)
    } else if s.eq(&String::from_str("3")) {
        Some(HttpVersion::V3)
    } else {
        None
    }
}

/// Pin the request to one protocol version. A version text the boundary
/// does not know releases the builder and records the failure.
pub fn request_builder_version(
    ch: &mut ErrorChannel,
    handle: Option<RequestBuilderHandle>,
    version: &TextArg,
) -> (r: Option<RequestBuilderHandle>)
    ensures
        handle is None ==> (r is None && holds_kind(*final(ch), HttpErrorKind::HttpHandleNull)),
        (handle is Some && version is Null) ==> (r is None && *final(ch) == *old(ch)),
        (handle is Some && version is Malformed) ==> (r is None && holds_kind(
            *final(ch),
            HttpErrorKind::CharConversion,
        )),
        (handle is Some && version is Text && http_version_of(version->0@) is None) ==> (r is None
            && holds_kind(*final(ch), HttpErrorKind::Other)),
        (handle is Some && version is Text && http_version_of(version->0@) is Some) ==> (*final(ch)
            == *old(ch) && r is Some && r->0@ == handle->0@.insert(
            RbKey::Version,
            RbVal::Version(http_version_of(version->0@)->0),
        ) && r->0.method_view() == handle->0.method_view() && r->0.url_view() == handle->0.url_view()),
{
    let b = match handle {
        Some(b) => b,
        None => {
            update_last_error(
                ch,
                HttpErrorKind::HttpHandleNull,
                String::from_str("request_builder is null when use version"),
            );
            return None;
        },
    };
    let v = match to_rust_str(ch, version, "version parse failed") {
        Some(v) => v,
        None => {
            return None;
        },
    };
    let parsed = match parse_http_version(v) {
        Some(p) => p,
        None => {
            update_last_error(ch, HttpErrorKind::Other, String::from_str("unknown http version"));
            return None;
        },
    };
    let RequestBuilderHandle { inner, method, url, config } = b;
    Some(
        RequestBuilderHandle {
            inner: engine::rb_version(inner, &parsed),
            method,
            url,
            config: Ghost(config@.insert(RbKey::Version, RbVal::Version(parsed))),
        },
    )
}

/// Set the body to the form encoding of the pairs, and the content type to
/// match; shares its tunable with the other body calls.
pub fn request_builder_form(
    ch: &mut ErrorChannel,
    handle: Option<RequestBuilderHandle>,
    pairs: &Vec<Pair>,
) -> (r: Option<RequestBuilderHandle>)
    ensures
        handle is None ==> (r is None && holds_kind(*final(ch), HttpErrorKind::HttpHandleNull)),
        handle is Some ==> (r is Some && r->0@ == handle->0@.insert(
            RbKey::Body,
            RbVal::FormPairs(pairs@.map_values(|p: Pair| pair_view(p))),
        ) && r->0.method_view() == handle->0.method_view() && r->0.url_view() == handle->0.url_view()),
        (handle is Some && (forall|i: int|
            0 <= i < pairs@.len() ==> (!((#[trigger] pairs@[i]).key is Malformed) && !(
            pairs@[i].value is Malformed)))) ==> *final(ch) == *old(ch),
{
    let b = match handle {
        Some(b) => b,
        None => {
            update_last_error(
                ch,
                HttpErrorKind::HttpHandleNull,
                String::from_str("request_builder is null when use form"),
            );
            return None;
        },
    };
    let tuples = pairs_to_tuples(ch, pairs);
    let ghost pview = pairs@.map_values(|p: Pair| pair_view(p));
    let RequestBuilderHandle { inner, method, url, config } = b;
    Some(
        RequestBuilderHandle {
            inner: engine::rb_form(inner, &tuples),
            method,
            url,
            config: Ghost(config@.insert(RbKey::Body, RbVal::FormPairs(pview))),
        },
    )
}

/// Set the body to the structured encoding of the pairs, and the content
/// type to match; shares its tunable with the other body calls.
pub fn request_builder_json(
    ch: &mut ErrorChannel,
    handle: Option<RequestBuilderHandle>,
    pairs: &Vec<Pair>,
) -> (r: Option<RequestBuilderHandle>)
    ensures
        handle is None ==> (r is None && holds_kind(*final(ch), HttpErrorKind::HttpHandleNull)),
        handle is Some ==> (r is Some && r->0@ == handle->0@.insert(
            RbKey::Body,
            RbVal::JsonPairs(pairs@.map_values(|p: Pair| pair_view(p))),
        ) && r->0.method_view() == handle->0.method_view() && r->0.url_view() == handle->0.url_view()),
        (handle is Some && (forall|i: int|
            0 <= i < pairs@.len() ==> (!((#[trigger] pairs@[i]).key is Malformed) && !(
            pairs@[i].value is Malformed)))) ==> *final(ch) == *old(ch),
{
    let b = match handle {
        Some(b) => b,
        None => {
            update_last_error(
                ch,
                HttpErrorKind::HttpHandleNull,
                String::from_str("request_builder is null when use json"),
            );
            return None;
        },
    };
    let tuples = pairs_to_tuples(ch, pairs);
    let ghost pview = pairs@.map_values(|p: Pair| pair_view(p));
    let RequestBuilderHandle { inner, method, url, config } = b;
    Some(
        RequestBuilderHandle {
            inner: engine::rb_json(inner, &tuples),
            method,
            url,
            config: Ghost(config@.insert(RbKey::Body, RbVal::JsonPairs(pview))),
        },
    )
}

/// Build the request, consuming the builder. Any failure a configuration
/// call deferred is reported here, with the catch-all kind.
pub fn request_builder_build(
    ch: &mut ErrorChannel,
    handle: Option<RequestBuilderHandle>,
) -> (r: Option<RequestHandle>)
    ensures
        handle is None ==> (r is None && holds_kind(*final(ch), HttpErrorKind::HttpHandleNull)),
        (handle is Some && r is Some) ==> (*final(ch) == *old(ch) && r->0.method_view()
            == handle->0.method_view() && r->0.url_view() == handle->0.url_view() && r->0@ == handle->0@),
        (handle is Some && r is None) ==> holds_kind(*final(ch), HttpErrorKind::Other),
{
    let b = match handle {
        Some(b) => b,
        None => {
            update_last_error(
                ch,
                HttpErrorKind::HttpHandleNull,
                String::from_str("request_builder is null when use build"),
            );
            return None;
        },
    };
    let RequestBuilderHandle { inner, method, url, config } = b;
    match engine::rb_build(inner) {
        Ok(req) => Some(RequestHandle { inner: req, method, url, config }),
        Err(e) => {
            let mut msg = String::from_str("build request failed: ");
            msg.append(engine::err_message(&e).as_str());
            update_last_error(ch, HttpErrorKind::Other, msg);
            None
        },
    }
}

/// Build and send the request in one blocking exchange, consuming the
/// builder. A failure is classified by the deterministic two-tier rule and
/// recorded; success hands back an unread response.
pub fn request_builder_send(
    ch: &mut ErrorChannel,
    handle: Option<RequestBuilderHandle>,
) -> (r: Option<ResponseHandle>)
    ensures
        handle is None ==> (r is None && holds_kind(*final(ch), HttpErrorKind::HttpHandleNull)),
        (handle is Some && r is Some) ==> (*final(ch) == *old(ch) && r->0.live()),
        (handle is Some && r is None) ==> (final(ch).last matches Some(rec)
            && crate::classify::is_classification_kind(rec.error_kind)),
{
    let b = match handle {
        Some(b) => b,
        None => {
            update_last_error(
                ch,
                HttpErrorKind::HttpHandleNull,
                String::from_str("request_builder is null when use send"),
            );
            return None;
        },
    };
    let RequestBuilderHandle { inner, method, url, config } = b;
    match engine::engine_send(inner) {
        Ok(resp) => Some(ResponseHandle::new(Some(resp))),
        Err(e) => {
            crate::classify::record_engine_error(ch, &e);
            None
        },
    }
}

/// Copy the builder, leaving the original handle as valid as it was: a
/// borrowing call, as a clone query must be for the caller to go on using
/// what it cloned. The copy exists exactly when the body is not a stream —
/// the engine's judgement — and starts the same chain: same method, same
/// address, same configuration.
pub fn request_builder_try_clone(
    ch: &mut ErrorChannel,
    handle: &Option<RequestBuilderHandle>,
) -> (r: Option<RequestBuilderHandle>)
    ensures
        handle is None ==> (r is None && holds_kind(*final(ch), HttpErrorKind::HttpHandleNull)),
        handle is Some ==> *final(ch) == *old(ch),
        (handle is Some && r is Some) ==> (r->0@ == handle->0@ && r->0.method_view()
            == handle->0.method_view() && r->0.url_view() == handle->0.url_view()),
{
    let b = match handle {
        Some(b) => b,
        None => {
            update_last_error(
                ch,
                HttpErrorKind::HttpHandleNull,
                String::from_str("request_builder is null when use try_clone"),
            );
            return None;
        },
    };
    match engine::rb_try_clone(&b.inner) {
        Some(copy) => Some(
            RequestBuilderHandle { inner: copy, method: b.method, url: b.url, config: b.config },
        ),
        None => None,
    }
}

/// Law: two request-configuration calls that write different tunables can
/// be made in either order; calls that share one (the two authentication
/// calls, the four body calls, repeated writes of one setting) are exactly
/// those excluded.
pub proof fn lemma_request_config_calls_commute(
    m: Map<RbKey, RbVal>,
    k1: RbKey,
    v1: RbVal,
    k2: RbKey,
    v2: RbVal,
)
    requires
        k1 != k2,
    ensures
        m.insert(k1, v1).insert(k2, v2) == m.insert(k2, v2).insert(k1, v1),
{
    assert(m.insert(k1, v1).insert(k2, v2) =~= m.insert(k2, v2).insert(k1, v1));
}

/// Law: adding one header commutes with any request-configuration call that
/// writes a different tunable.
pub proof fn lemma_header_commutes(
    m: Map<RbKey, RbVal>,
    name: Seq<char>,
    value: Seq<char>,
    k: RbKey,
    v: RbVal,
)
    requires
        k != RbKey::HeaderList,
    ensures
        with_header(m, name, value).insert(k, v) == with_header(m.insert(k, v), name, value),
{
    assert(rb_header_list(m.insert(k, v)) == rb_header_list(m));
    assert(with_header(m, name, value).insert(k, v) =~= with_header(m.insert(k, v), name, value));
}

/// Law: appending query pairs commutes with any request-configuration call
/// that writes a different tunable.
pub proof fn lemma_query_commutes(
    m: Map<RbKey, RbVal>,
    pairs: Seq<(Seq<char>, Seq<char>)>,
    k: RbKey,
    v: RbVal,
)
    requires
        k != RbKey::Query,
    ensures
        with_query(m, pairs).insert(k, v) == with_query(m.insert(k, v), pairs),
{
    assert(rb_query_pairs(m.insert(k, v)) == rb_query_pairs(m));
    assert(with_query(m, pairs).insert(k, v) =~= with_query(m.insert(k, v), pairs));
}

} // verus!

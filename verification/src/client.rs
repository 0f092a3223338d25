//! The client facade: starting request chains from a built client, and
//! executing a built request.
//!
//! Each convenience call validates the address text before asking the
//! engine for a builder, so an illegal address is reported here rather
//! than at send time; execution itself classifies and records any engine
//! failure by the deterministic two-tier rule.

use vstd::prelude::*;
use vstd::string::StringExecFns;

use crate::channel::{holds_kind, update_last_error, ErrorChannel};
use crate::classify;
use crate::classify::is_classification_kind;
use crate::engine;
use crate::engine::{is_url, url_parse_ok};
use crate::kinds::HttpErrorKind;
use crate::request::{RequestBuilderHandle, RequestHandle};
use crate::response::ResponseHandle;
use crate::text::{is_method_token, is_valid_method_token, to_rust_str, TextArg};

verus! {

/// Release a client; a no-op on the null handle.
pub fn client_destroy(handle: Option<reqwest::blocking::Client>) {
    let _ = handle;
}

/// Start a retrieval request to the given address. A null address is
/// silently absent, malformed text records the text-conversion kind, and
/// text that is not an absolute address records the catch-all kind.
pub fn client_get(
    ch: &mut ErrorChannel,
    handle: &Option<reqwest::blocking::Client>,
    url: &TextArg,
) -> (r: Option<RequestBuilderHandle>)
    ensures
        handle is None ==> (r is None && holds_kind(*final(ch), HttpErrorKind::HttpHandleNull)),
        (handle is Some && url is Null) ==> (r is None && *final(ch) == *old(ch)),
        (handle is Some && url is Malformed) ==> (r is None && holds_kind(
            *final(ch),
            HttpErrorKind::CharConversion,
        )),
        (handle is Some && url is Text && !is_url(url->0@)) ==> (r is None && holds_kind(
            *final(ch),
            HttpErrorKind::Other,
        )),
        (handle is Some && url is Text && is_url(url->0@)) ==> (*final(ch) == *old(ch) && r is Some
            && r->0.method_view() == "GET"@ && r->0.url_view() == url->0@ && r->0@ == Map::<
            crate::request::RbKey,
            crate::request::RbVal,
        >::empty()),
{
    let c = match handle {
        Some(c) => c,
        None => {
            update_last_error(
                ch,
                HttpErrorKind::HttpHandleNull,
                String::from_str("client handle is null when use get"),
            );
            return None;
        },
    };
    let u = match to_rust_str(ch, url, "url parse error") {
        Some(u) => u,
        None => {
            return None;
        },
    };
    if !url_parse_ok(u.as_str()) {
        update_last_error(ch, HttpErrorKind::Other, String::from_str("url illegality"));
        return None;
    }
    Some(RequestBuilderHandle::start(engine::cl_get(c, u.as_str()), Ghost("GET"@), Ghost(u@)))
}

/// Start a submission request to the given address, with the argument
/// discipline of the retrieval call.
pub fn client_post(
    ch: &mut ErrorChannel,
    handle: &Option<reqwest::blocking::Client>,
    url: &TextArg,
) -> (r: Option<RequestBuilderHandle>)
    ensures
        handle is None ==> (r is None && holds_kind(*final(ch), HttpErrorKind::HttpHandleNull)),
        (handle is Some && url is Null) ==> (r is None && *final(ch) == *old(ch)),
        (handle is Some && url is Malformed) ==> (r is None && holds_kind(
            *final(ch),
            HttpErrorKind::CharConversion,
        )),
        (handle is Some && url is Text && !is_url(url->0@)) ==> (r is None && holds_kind(
            *final(ch),
            HttpErrorKind::Other,
        )),
        (handle is Some && url is Text && is_url(url->0@)) ==> (*final(ch) == *old(ch) && r is Some
            && r->0.method_view() == "POST"@ && r->0.url_view() == url->0@ && r->0@ == Map::<
            crate::request::RbKey,
            crate::request::RbVal,
        >::empty()),
{
    let c = match handle {
        Some(c) => c,
        None => {
            update_last_error(
                ch,
                HttpErrorKind::HttpHandleNull,
                String::from_str("client handle is null when use post"),
            );
            return None;
        },
    };
    let u = match to_rust_str(ch, url, "url parse error") {
        Some(u) => u,
        None => {
            return None;
        },
    };
    if !url_parse_ok(u.as_str()) {
        update_last_error(ch, HttpErrorKind::Other, String::from_str("url illegality"));
        return None;
    }
    Some(RequestBuilderHandle::start(engine::cl_post(c, u.as_str()), Ghost("POST"@), Ghost(u@)))
}

/// Start a replacement request to the given address, with the argument
/// discipline of the retrieval call.
pub fn client_put(
    ch: &mut ErrorChannel,
    handle: &Option<reqwest::blocking::Client>,
    url: &TextArg,
) -> (r: Option<RequestBuilderHandle>)
    ensures
        handle is None ==> (r is None && holds_kind(*final(ch), HttpErrorKind::HttpHandleNull)),
        (handle is Some && url is Null) ==> (r is None && *final(ch) == *old(ch)),
        (handle is Some && url is Malformed) ==> (r is None && holds_kind(
            *final(ch),
            HttpErrorKind::CharConversion,
        )),
        (handle is Some && url is Text && !is_url(url->0@)) ==> (r is None && holds_kind(
            *final(ch),
            HttpErrorKind::Other,
        )),
        (handle is Some && url is Text && is_url(url->0@)) ==> (*final(ch) == *old(ch) && r is Some
            && r->0.method_view() == "PUT"@ && r->0.url_view() == url->0@ && r->0@ == Map::<
            crate::request::RbKey,
            crate::request::RbVal,
        >::empty()),
{
    let c = match handle {
        Some(c) => c,
        None => {
            update_last_error(
                ch,
                HttpErrorKind::HttpHandleNull,
                String::from_str("client handle is null when use put"),
            );
            return None;
        },
    };
    let u = match to_rust_str(ch, url, "url parse error") {
        Some(u) => u,
        None => {
            return None;
        },
    };
    if !url_parse_ok(u.as_str()) {
        update_last_error(ch, HttpErrorKind::Other, String::from_str("url illegality"));
        return None;
    }
    Some(RequestBuilderHandle::start(engine::cl_put(c, u.as_str()), Ghost("PUT"@), Ghost(u@)))
}

/// Start a partial-update request to the given address, with the argument
/// discipline of the retrieval call.
pub fn client_patch(
    ch: &mut ErrorChannel,
    handle: &Option<reqwest::blocking::Client>,
    url: &TextArg,
) -> (r: Option<RequestBuilderHandle>)
    ensures
        handle is None ==> (r is None && holds_kind(*final(ch), HttpErrorKind::HttpHandleNull)),
        (handle is Some && url is Null) ==> (r is None && *final(ch) == *old(ch)),
        (handle is Some && url is Malformed) ==> (r is None && holds_kind(
            *final(ch),
            HttpErrorKind::CharConversion,
        )),
        (handle is Some && url is Text && !is_url(url->0@)) ==> (r is None && holds_kind(
            *final(ch),
            HttpErrorKind::Other,
        )),
        (handle is Some && url is Text && is_url(url->0@)) ==> (*final(ch) == *old(ch) && r is Some
            && r->0.method_view() == "PATCH"@ && r->0.url_view() == url->0@ && r->0@ == Map::<
            crate::request::RbKey,
            crate::request::RbVal,
        >::empty()),
{
    let c = match handle {
        Some(c) => c,
        None => {
            update_last_error(
                ch,
                HttpErrorKind::HttpHandleNull,
                String::from_str("client handle is null when use patch"),
            );
            return None;
        },
    };
    let u = match to_rust_str(ch, url, "url parse error") {
        Some(u) => u,
        None => {
            return None;
        },
    };
    if !url_parse_ok(u.as_str()) {
        update_last_error(ch, HttpErrorKind::Other, String::from_str("url illegality"));
        return None;
    }
    Some(RequestBuilderHandle::start(engine::cl_patch(c, u.as_str()), Ghost("PATCH"@), Ghost(u@)))
}

/// Start a deletion request to the given address, with the argument
/// discipline of the retrieval call.
pub fn client_delete(
    ch: &mut ErrorChannel,
    handle: &Option<reqwest::blocking::Client>,
    url: &TextArg,
) -> (r: Option<RequestBuilderHandle>)
    ensures
        handle is None ==> (r is None && holds_kind(*final(ch), HttpErrorKind::HttpHandleNull)),
        (handle is Some && url is Null) ==> (r is None && *final(ch) == *old(ch)),
        (handle is Some && url is Malformed) ==> (r is None && holds_kind(
            *final(ch),
            HttpErrorKind::CharConversion,
        )),
        (handle is Some && url is Text && !is_url(url->0@)) ==> (r is None && holds_kind(
            *final(ch),
            HttpErrorKind::Other,
        )),
        (handle is Some && url is Text && is_url(url->0@)) ==> (*final(ch) == *old(ch) && r is Some
            && r->0.method_view() == "DELETE"@ && r->0.url_view() == url->0@ && r->0@ == Map::<
            crate::request::RbKey,
            crate::request::RbVal,
        >::empty()),
{
    let c = match handle {
        Some(c) => c,
        None => {
            update_last_error(
                ch,
                HttpErrorKind::HttpHandleNull,
                String::from_str("client handle is null when use delete"),
            );
            return None;
        },
    };
    let u = match to_rust_str(ch, url, "url parse error") {
        Some(u) => u,
        None => {
            return None;
        },
    };
    if !url_parse_ok(u.as_str()) {
        update_last_error(ch, HttpErrorKind::Other, String::from_str("url illegality"));
        return None;
    }
    Some(
        RequestBuilderHandle::start(engine::cl_delete(c, u.as_str()), Ghost("DELETE"@), Ghost(u@)),
    )
}

/// Start a headers-only request to the given address, with the argument
/// discipline of the retrieval call.
pub fn client_head(
    ch: &mut ErrorChannel,
    handle: &Option<reqwest::blocking::Client>,
    url: &TextArg,
) -> (r: Option<RequestBuilderHandle>)
    ensures
        handle is None ==> (r is None && holds_kind(*final(ch), HttpErrorKind::HttpHandleNull)),
        (handle is Some && url is Null) ==> (r is None && *final(ch) == *old(ch)),
        (handle is Some && url is Malformed) ==> (r is None && holds_kind(
            *final(ch),
            HttpErrorKind::CharConversion,
        )),
        (handle is Some && url is Text && !is_url(url->0@)) ==> (r is None && holds_kind(
            *final(ch),
            HttpErrorKind::Other,
        )),
        (handle is Some && url is Text && is_url(url->0@)) ==> (*final(ch) == *old(ch) && r is Some
            && r->0.method_view() == "HEAD"@ && r->0.url_view() == url->0@ && r->0@ == Map::<
            crate::request::RbKey,
            crate::request::RbVal,
        >::empty()),
{
    let c = match handle {
        Some(c) => c,
        None => {
            update_last_error(
                ch,
                HttpErrorKind::HttpHandleNull,
                String::from_str("client handle is null when use head"),
            );
            return None;
        },
    };
    let u = match to_rust_str(ch, url, "url parse error") {
        Some(u) => u,
        None => {
            return None;
        },
    };
    if !url_parse_ok(u.as_str()) {
        update_last_error(ch, HttpErrorKind::Other, String::from_str("url illegality"));
        return None;
    }
    Some(RequestBuilderHandle::start(engine::cl_head(c, u.as_str()), Ghost("HEAD"@), Ghost(u@)))
}

/// Start a request with a caller-chosen method. Arguments are validated
/// left to right: the method must be a non-empty token, then the address
/// must be absolute; the first invalid argument determines the recorded
/// kind, and later arguments are not examined.
pub fn client_request(
    ch: &mut ErrorChannel,
    handle: &Option<reqwest::blocking::Client>,
    method: &TextArg,
    url: &TextArg,
) -> (r: Option<RequestBuilderHandle>)
    ensures
        handle is None ==> (r is None && holds_kind(*final(ch), HttpErrorKind::HttpHandleNull)),
        (handle is Some && method is Null) ==> (r is None && *final(ch) == *old(ch)),
        (handle is Some && method is Malformed) ==> (r is None && holds_kind(
            *final(ch),
            HttpErrorKind::CharConversion,
        )),
        (handle is Some && method is Text && !is_method_token(method->0@)) ==> (r is None
            && holds_kind(*final(ch), HttpErrorKind::Other)),
        (handle is Some && method is Text && is_method_token(method->0@) && url is Null) ==> (
        r is None && *final(ch) == *old(ch)),
        (handle is Some && method is Text && is_method_token(method->0@) && url is Malformed) ==> (
        r is None && holds_kind(*final(ch), HttpErrorKind::CharConversion)),
        (handle is Some && method is Text && is_method_token(method->0@) && url is Text && !is_url(
            url->0@,
        )) ==> (r is None && holds_kind(*final(ch), HttpErrorKind::Other)),
        (handle is Some && method is Text && is_method_token(method->0@) && url is Text && is_url(
            url->0@,
        )) ==> (*final(ch) == *old(ch) && r is Some && r->0.method_view() == method->0@
            && r->0.url_view() == url->0@ && r->0@ == Map::<
            crate::request::RbKey,
            crate::request::RbVal,
        >::empty()),
{
    let c = match handle {
        Some(c) => c,
        None => {
            update_last_error(
                ch,
                HttpErrorKind::HttpHandleNull,
                String::from_str("client handle is null when use request"),
            );
            return None;
        },
    };
    let m = match to_rust_str(ch, method, "method parse string error") {
        Some(m) => m,
        None => {
            return None;
        },
    };
    if !is_valid_method_token(m.as_str()) {
        update_last_error(ch, HttpErrorKind::Other, String::from_str("invalid http method"));
        return None;
    }
    let u = match to_rust_str(ch, url, "url parse string error") {
        Some(u) => u,
        None => {
            return None;
        },
    };
    if !url_parse_ok(u.as_str()) {
        update_last_error(ch, HttpErrorKind::Other, String::from_str("url illegality"));
        return None;
    }
    match engine::cl_request(c, m.as_str(), u.as_str()) {
        Ok(rb) => Some(RequestBuilderHandle::start(rb, Ghost(m@), Ghost(u@))),
        Err(()) => {
            proof {
                assert(false);
            }
            None
        },
    }
}

/// Execute a built request in one blocking exchange, consuming the request;
/// the client is only borrowed. A failure is classified by the
/// deterministic two-tier rule and recorded; success hands back an unread
/// response.
pub fn client_execute(
    ch: &mut ErrorChannel,
    handle: &Option<reqwest::blocking::Client>,
    request: Option<RequestHandle>,
) -> (r: Option<ResponseHandle>)
    ensures
        (handle is None || request is None) ==> (r is None && holds_kind(
            *final(ch),
            HttpErrorKind::HttpHandleNull,
        )),
        (handle is Some && request is Some && r is Some) ==> (*final(ch) == *old(ch)
            && r->0.live()),
        (handle is Some && request is Some && r is None) ==> (final(ch).last matches Some(rec)
            && is_classification_kind(rec.error_kind)),
{
    let (c, req) = match (handle, request) {
        (Some(c), Some(req)) => (c, req),
        _ => {
            update_last_error(
                ch,
                HttpErrorKind::HttpHandleNull,
                String::from_str("client handle or request is null when use request"),
            );
            return None;
        },
    };
    match engine::engine_execute(c, req.into_engine()) {
        Ok(resp) => Some(ResponseHandle::new(Some(resp))),
        Err(e) => {
            classify::record_engine_error(ch, &e);
            None
        },
    }
}

} // verus!

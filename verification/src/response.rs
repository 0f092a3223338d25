//! Response handles and the body-extraction calls.
//!
//! A response starts unread; its status, headers, version, address and
//! length queries are borrowing and repeatable. Exactly one call may
//! materialize the body, because materializing takes the underlying stream;
//! any later materializing call on the same handle deterministically
//! records the already-consumed failure and returns the null handle rather
//! than succeeding with empty data.

use vstd::prelude::*;
use vstd::string::{StrSliceExecFns, StringExecFns};

use crate::buffer::{RString, RespBody};
use crate::channel::{holds_kind, update_last_error, ErrorChannel};
use crate::classify;
use crate::classify::is_classification_kind;
use crate::engine;
use crate::engine::HttpVersion;
use crate::kinds::HttpErrorKind;
use crate::text::{to_rust_str, TextArg};

verus! {

/// A response handle: the engine's response while the body is still
/// unread, nothing once a materializing call has taken it.
pub struct ResponseHandle {
    inner: Option<reqwest::blocking::Response>,
}

impl ResponseHandle {
    /// Whether the body has not been materialized yet.
    pub closed spec fn live(&self) -> bool {
        self.inner is Some
    }

    pub fn new(inner: Option<reqwest::blocking::Response>) -> (r: Self)
        ensures
            r.live() <==> inner is Some,
    {
        Self { inner }
    }
}

/// Release a response; a no-op on the null handle.
pub fn response_destroy(handle: Option<ResponseHandle>) {
    let _ = handle;
}

/// The status of the response: a three-digit protocol code, or the negative
/// sentinel with a record on the null handle and on a consumed response.
pub fn response_status(ch: &mut ErrorChannel, handle: &Option<ResponseHandle>) -> (r: i32)
    ensures
        handle is None ==> (r == -1 && holds_kind(*final(ch), HttpErrorKind::HttpHandleNull)),
        (handle is Some && !handle->0.live()) ==> (r == -1 && holds_kind(
            *final(ch),
            HttpErrorKind::InvalidData,
        )),
        (handle is Some && handle->0.live()) ==> (*final(ch) == *old(ch) && 100 <= r < 1000),
{
    let resp = match handle {
        Some(resp) => resp,
        None => {
            update_last_error(
                ch,
                HttpErrorKind::HttpHandleNull,
                String::from_str("response handle is null when use status"),
            );
            return -1;
        },
    };
    match &resp.inner {
        Some(er) => engine::resp_status(er) as i32,
        None => {
            update_last_error(
                ch,
                HttpErrorKind::InvalidData,
                String::from_str("response is null when use status"),
            );
            -1
        },
    }
}

/// A copy of the response's headers as a fresh header map handle; the
/// response stays as it was.
pub fn response_headers(ch: &mut ErrorChannel, handle: &Option<ResponseHandle>) -> (r: Option<
    reqwest::header::HeaderMap,
>)
    ensures
        handle is None ==> (r is None && holds_kind(*final(ch), HttpErrorKind::HttpHandleNull)),
        (handle is Some && !handle->0.live()) ==> (r is None && holds_kind(
            *final(ch),
            HttpErrorKind::InvalidData,
        )),
        (handle is Some && handle->0.live()) ==> (*final(ch) == *old(ch) && r is Some),
{
    let resp = match handle {
        Some(resp) => resp,
        None => {
            update_last_error(
                ch,
                HttpErrorKind::HttpHandleNull,
                String::from_str("response handle is null when use headers"),
            );
            return None;
        },
    };
    match &resp.inner {
        Some(er) => Some(engine::resp_headers(er)),
        None => {
            update_last_error(
                ch,
                HttpErrorKind::InvalidData,
                String::from_str("response is null when use headers"),
            );
            None
        },
    }
}

/// The text naming a protocol version at the boundary.
pub open spec fn version_text(v: HttpVersion) -> Seq<char> {
    match v {
        HttpVersion::V09 => "HTTP/0.9"@,
        HttpVersion::V10 => "HTTP/1.0"@,
        HttpVersion::V11 => "HTTP/1.1"@,
        HttpVersion::V2 => "HTTP/2.0"@,
        HttpVersion::V3 => "HTTP/3.0"@,
    }
}

/// The protocol version of the response, as its boundary text.
pub fn response_version(ch: &mut ErrorChannel, handle: &Option<ResponseHandle>) -> (r: Option<
    RString,
>)
    ensures
        handle is None ==> (r is None && holds_kind(*final(ch), HttpErrorKind::HttpHandleNull)),
        (handle is Some && !handle->0.live()) ==> (r is None && holds_kind(
            *final(ch),
            HttpErrorKind::InvalidData,
        )),
        (handle is Some && handle->0.live()) ==> (*final(ch) == *old(ch) && r is Some && (exists|
            v: HttpVersion,
        | r->0@ == version_text(v))),
{
    let resp = match handle {
        Some(resp) => resp,
        None => {
            update_last_error(
                ch,
                HttpErrorKind::HttpHandleNull,
                String::from_str("response handle is null when use version"),
            );
            return None;
        },
    };
    let er = match &resp.inner {
        Some(er) => er,
        None => {
            update_last_error(
                ch,
                HttpErrorKind::InvalidData,
                String::from_str("response is null when use version"),
            );
            return None;
        },
    };
    let v = engine::resp_version(er);
    let text = match v {
        HttpVersion::V09 => String::from_str("HTTP/0.9"),
        HttpVersion::V10 => String::from_str("HTTP/1.0"),
        HttpVersion::V11 => String::from_str("HTTP/1.1"),
        HttpVersion::V2 => String::from_str("HTTP/2.0"),
        HttpVersion::V3 => String::from_str("HTTP/3.0"),
    };
    proof {
        assert(text@ == version_text(v));
    }
    Some(RString::new(text))
}

/// The final address of the exchange, as an owned text buffer.
pub fn response_url(ch: &mut ErrorChannel, handle: &Option<ResponseHandle>) -> (r: Option<RString>)
    ensures
        handle is None ==> (r is None && holds_kind(*final(ch), HttpErrorKind::HttpHandleNull)),
        (handle is Some && !handle->0.live()) ==> (r is None && holds_kind(
            *final(ch),
            HttpErrorKind::InvalidData,
        )),
        (handle is Some && handle->0.live()) ==> (*final(ch) == *old(ch) && r is Some),
{
    let resp = match handle {
        Some(resp) => resp,
        None => {
            update_last_error(
                ch,
                HttpErrorKind::HttpHandleNull,
                String::from_str("handle null when use url"),
            );
            return None;
        },
    };
    match &resp.inner {
        Some(er) => Some(RString::new(engine::resp_url_string(er))),
        None => {
            update_last_error(
                ch,
                HttpErrorKind::InvalidData,
                String::from_str("response is null when use url"),
            );
            None
        },
    }
}

/// The remote address the response came from; the engine may not know one,
/// which is recorded and reported as the null handle.
pub fn response_remote_addr(ch: &mut ErrorChannel, handle: &Option<ResponseHandle>) -> (r: Option<
    RString,
>)
    ensures
        handle is None ==> (r is None && holds_kind(*final(ch), HttpErrorKind::HttpHandleNull)),
        (handle is Some && !handle->0.live()) ==> (r is None && holds_kind(
            *final(ch),
            HttpErrorKind::InvalidData,
        )),
        (handle is Some && handle->0.live() && r is None) ==> holds_kind(
            *final(ch),
            HttpErrorKind::InvalidData,
        ),
        (handle is Some && handle->0.live() && r is Some) ==> *final(ch) == *old(ch),
{
    let resp = match handle {
        Some(resp) => resp,
        None => {
            update_last_error(
                ch,
                HttpErrorKind::HttpHandleNull,
                String::from_str("handle is null when use remote_addr"),
            );
            return None;
        },
    };
    let er = match &resp.inner {
        Some(er) => er,
        None => {
            update_last_error(
                ch,
                HttpErrorKind::InvalidData,
                String::from_str("response is null when use remote_addr"),
            );
            return None;
        },
    };
    match engine::resp_remote_addr(er) {
        Some(a) => Some(RString::new(a)),
        None => {
            update_last_error(
                ch,
                HttpErrorKind::InvalidData,
                String::from_str("response remote addr is empty"),
            );
            None
        },
    }
}

/// The announced body length, if the response carries one; the zero
/// sentinel with a record otherwise.
pub fn response_content_length(ch: &mut ErrorChannel, handle: &Option<ResponseHandle>) -> (r: u64)
    ensures
        handle is None ==> (r == 0 && holds_kind(*final(ch), HttpErrorKind::HttpHandleNull)),
        (handle is Some && !handle->0.live()) ==> (r == 0 && holds_kind(
            *final(ch),
            HttpErrorKind::InvalidData,
        )),
        (handle is Some && handle->0.live()) ==> ((*final(ch) == *old(ch)) || (r == 0
            && holds_kind(*final(ch), HttpErrorKind::InvalidData))),
{
    let resp = match handle {
        Some(resp) => resp,
        None => {
            update_last_error(
                ch,
                HttpErrorKind::HttpHandleNull,
                String::from_str("handle is null when use content_length"),
            );
            return 0;
        },
    };
    let er = match &resp.inner {
        Some(er) => er,
        None => {
            update_last_error(
                ch,
                HttpErrorKind::InvalidData,
                String::from_str("response is null when use content_length"),
            );
            return 0;
        },
    };
    match engine::resp_content_length(er) {
        Some(v) => v,
        None => {
            update_last_error(
                ch,
                HttpErrorKind::InvalidData,
                String::from_str("response content length is empty"),
            );
            0
        },
    }
}

/// Materialize the body as decoded text, consuming the body stream: the
/// handle survives, but no second materializing call can succeed on it. A
/// consumed response records the already-consumed failure; an engine
/// failure is classified and recorded, and still consumes the body.
pub fn response_body_text(ch: &mut ErrorChannel, handle: &mut Option<ResponseHandle>) -> (r:
    Option<RespBody>)
    ensures
        (*old(handle)) is None ==> ((*final(handle)) is None && r is None && holds_kind(
            *final(ch),
            HttpErrorKind::HttpHandleNull,
        )),
        ((*old(handle)) is Some && !(*old(handle))->0.live()) ==> (r is None && holds_kind(
            *final(ch),
            HttpErrorKind::InvalidData,
        ) && ((*final(handle)) is Some && !(*final(handle))->0.live())),
        ((*old(handle)) is Some && (*old(handle))->0.live()) ==> ((*final(handle)) is Some && !(
        *final(handle))->0.live()),
        ((*old(handle)) is Some && (*old(handle))->0.live() && r is Some) ==> *final(ch) == *old(
            ch,
        ),
        ((*old(handle)) is Some && (*old(handle))->0.live() && r is None) ==> (final(ch).last matches Some(rec) && is_classification_kind(rec.error_kind)),
{
    let resp = match handle {
        Some(resp) => resp,
        None => {
            update_last_error(
                ch,
                HttpErrorKind::HttpHandleNull,
                String::from_str("response handle is null when use text"),
            );
            return None;
        },
    };
    let er = match resp.inner.take() {
        Some(er) => er,
        None => {
            update_last_error(
                ch,
                HttpErrorKind::InvalidData,
                String::from_str("response is null when use text"),
            );
            return None;
        },
    };
    match engine::engine_text(er) {
        Ok(text) => Some(RespBody::new(text.as_str().as_bytes_vec())),
        Err(e) => {
            classify::record_engine_error(ch, &e);
            None
        },
    }
}

/// Materialize the body as text decoded with a caller-chosen fallback
/// encoding. The body is taken before the encoding argument is examined,
/// as the boundary has always done, so a bad encoding also consumes it.
pub fn response_body_text_with_charset(
    ch: &mut ErrorChannel,
    handle: &mut Option<ResponseHandle>,
    default_encoding: &TextArg,
) -> (r: Option<RespBody>)
    ensures
        (*old(handle)) is None ==> ((*final(handle)) is None && r is None && holds_kind(
            *final(ch),
            HttpErrorKind::HttpHandleNull,
        )),
        ((*old(handle)) is Some && !(*old(handle))->0.live()) ==> (r is None && holds_kind(
            *final(ch),
            HttpErrorKind::InvalidData,
        ) && ((*final(handle)) is Some && !(*final(handle))->0.live())),
        ((*old(handle)) is Some && (*old(handle))->0.live()) ==> ((*final(handle)) is Some && !(
        *final(handle))->0.live()),
        ((*old(handle)) is Some && (*old(handle))->0.live() && !(default_encoding is Text)) ==> (
        r is None && holds_kind(*final(ch), HttpErrorKind::InvalidData)),
        ((*old(handle)) is Some && (*old(handle))->0.live() && default_encoding is Text
            && r is Some) ==> *final(ch) == *old(ch),
        ((*old(handle)) is Some && (*old(handle))->0.live() && default_encoding is Text
            && r is None) ==> (final(ch).last matches Some(rec) && is_classification_kind(
            rec.error_kind,
        )),
{
    let resp = match handle {
        Some(resp) => resp,
        None => {
            update_last_error(
                ch,
                HttpErrorKind::HttpHandleNull,
                String::from_str("response handle is null when use text_with_charset"),
            );
            return None;
        },
    };
    let er = match resp.inner.take() {
        Some(er) => er,
        None => {
            update_last_error(
                ch,
                HttpErrorKind::InvalidData,
                String::from_str("response is null when use text_with_charset"),
            );
            return None;
        },
    };
    let enc = match to_rust_str(ch, default_encoding, "default_encoding parse to str failed") {
        Some(enc) => enc,
        None => {
            update_last_error(
                ch,
                HttpErrorKind::InvalidData,
                String::from_str("default_encoding parse to str failed"),
            );
            return None;
        },
    };
    match engine::engine_text_with_charset(er, enc.as_str()) {
        Ok(text) => Some(RespBody::new(text.as_str().as_bytes_vec())),
        Err(e) => {
            classify::record_engine_error(ch, &e);
            None
        },
    }
}

/// Materialize the whole body as bytes, consuming the body stream; the
/// second materializing call on the same handle records the
/// already-consumed failure instead of succeeding with empty data.
pub fn response_bytes(ch: &mut ErrorChannel, handle: &mut Option<ResponseHandle>) -> (r: Option<
    RespBody,
>)
    ensures
        (*old(handle)) is None ==> ((*final(handle)) is None && r is None && holds_kind(
            *final(ch),
            HttpErrorKind::HttpHandleNull,
        )),
        ((*old(handle)) is Some && !(*old(handle))->0.live()) ==> (r is None && holds_kind(
            *final(ch),
            HttpErrorKind::InvalidData,
        ) && ((*final(handle)) is Some && !(*final(handle))->0.live())),
        ((*old(handle)) is Some && (*old(handle))->0.live()) ==> ((*final(handle)) is Some && !(
        *final(handle))->0.live()),
        ((*old(handle)) is Some && (*old(handle))->0.live() && r is Some) ==> *final(ch) == *old(
            ch,
        ),
        ((*old(handle)) is Some && (*old(handle))->0.live() && r is None) ==> (final(ch).last matches Some(rec) && is_classification_kind(rec.error_kind)),
{
    let resp = match handle {
        Some(resp) => resp,
        None => {
            update_last_error(
                ch,
                HttpErrorKind::HttpHandleNull,
                String::from_str("response handle is null when use bytes"),
            );
            return None;
        },
    };
    let er = match resp.inner.take() {
        Some(er) => er,
        None => {
            update_last_error(
                ch,
                HttpErrorKind::InvalidData,
                String::from_str("response is null when use bytes"),
            );
            return None;
        },
    };
    match engine::engine_bytes(er) {
        Ok(bytes) => Some(RespBody::new(bytes)),
        Err(e) => {
            classify::record_engine_error(ch, &e);
            None
        },
    }
}

/// Stream the body into an owned buffer. The response object itself stays
/// behind, as the boundary's copying call has always left it.
pub fn response_copy_to(ch: &mut ErrorChannel, handle: &mut Option<ResponseHandle>) -> (r: Option<
    RespBody,
>)
    ensures
        (*old(handle)) is None ==> ((*final(handle)) is None && r is None && holds_kind(
            *final(ch),
            HttpErrorKind::HttpHandleNull,
        )),
        ((*old(handle)) is Some && !(*old(handle))->0.live()) ==> (r is None && holds_kind(
            *final(ch),
            HttpErrorKind::InvalidData,
        ) && ((*final(handle)) is Some && !(*final(handle))->0.live())),
        ((*old(handle)) is Some && (*old(handle))->0.live()) ==> ((*final(handle)) is Some && (
        *final(handle))->0.live()),
        ((*old(handle)) is Some && (*old(handle))->0.live() && r is Some) ==> *final(ch) == *old(
            ch,
        ),
        ((*old(handle)) is Some && (*old(handle))->0.live() && r is None) ==> (final(ch).last matches Some(rec) && is_classification_kind(rec.error_kind)),
{
    let resp = match handle {
        Some(resp) => resp,
        None => {
            update_last_error(
                ch,
                HttpErrorKind::HttpHandleNull,
                String::from_str("handle is null when use copy_to"),
            );
            return None;
        },
    };
    let er = match &mut resp.inner {
        Some(er) => er,
        None => {
            update_last_error(
                ch,
                HttpErrorKind::InvalidData,
                String::from_str("response is null when use copy_to"),
            );
            return None;
        },
    };
    match engine::engine_copy_to(er) {
        Ok(bytes) => Some(RespBody::new(bytes)),
        Err(e) => {
            classify::record_engine_error(ch, &e);
            None
        },
    }
}

/// Read the next stretch of the body into the caller's buffer, returning
/// how many bytes were written, or the negative sentinel with a record. The
/// buffer keeps its length; only a prefix is overwritten. A failure is
/// classified by the input-output sub-table, and a failure that wraps an
/// engine failure is re-classified by the engine's own flags, as the
/// boundary has always reported it.
pub fn response_read(
    ch: &mut ErrorChannel,
    handle: &mut Option<ResponseHandle>,
    buf: &mut Vec<u8>,
) -> (r: i32)
    requires
        old(buf)@.len() <= 0x7fffffff,
    ensures
        final(buf)@.len() == old(buf)@.len(),
        (*old(handle)) is None ==> (r == -1 && holds_kind(*final(ch), HttpErrorKind::HttpHandleNull)),
        ((*old(handle)) is Some && !(*old(handle))->0.live()) ==> (r == -1 && holds_kind(
            *final(ch),
            HttpErrorKind::InvalidData,
        )),
        ((*old(handle)) is Some && (*old(handle))->0.live()) ==> ((*final(handle)) is Some && (
        *final(handle))->0.live()),
        ((*old(handle)) is Some && (*old(handle))->0.live() && r >= 0) ==> (*final(ch) == *old(ch)
            && r <= old(buf)@.len()),
        ((*old(handle)) is Some && (*old(handle))->0.live() && r < 0) ==> (r == -1 && (final(ch).last matches Some(rec) && is_classification_kind(rec.error_kind))),
{
    let resp = match handle {
        Some(resp) => resp,
        None => {
            update_last_error(
                ch,
                HttpErrorKind::HttpHandleNull,
                String::from_str("handle is null when use read"),
            );
            return -1;
        },
    };
    let er = match &mut resp.inner {
        Some(er) => er,
        None => {
            update_last_error(
                ch,
                HttpErrorKind::InvalidData,
                String::from_str("response is null when use read"),
            );
            return -1;
        },
    };
    match engine::engine_read(er, buf) {
        Ok(n) => n as i32,
        Err(e) => {
            let kind = engine::io_err_kind_of(&e);
            let class = classify::class_of_io_kind(&kind);
            let outer_kind = classify::classify_io(class);
            proof {
                classify::lemma_io_classification_is_failure_kind(class);
            }
            update_last_error(ch, outer_kind, engine::io_err_message(&e));
            match engine::io_inner_engine(&e) {
                Some(inner) => {
                    classify::record_engine_error(ch, inner);
                },
                None => {
                    match engine::io_inner_io(&e) {
                        Some(inner) => {
                            let ik = engine::io_err_kind_of(inner);
                            let ic = classify::class_of_io_kind(&ik);
                            let k = classify::classify_io(ic);
                            proof {
                                classify::lemma_io_classification_is_failure_kind(ic);
                            }
                            update_last_error(ch, k, engine::io_err_message(inner));
                        },
                        None => {},
                    }
                },
            }
            -1
        },
    }
}

} // verus!

//! Deterministic two-tier classification of engine failures.
//!
//! A failure reported by the protocol engine is classified first by the
//! engine's own self-reported category flags, in a fixed priority order;
//! only when none applies is the failure's cause chain consulted for an
//! embedded input-output error, which a second, input-output-specific table
//! classifies. The resulting kind is a pure function of the reported flags
//! and cause chain.

use vstd::prelude::*;

use crate::engine;
use crate::kinds::{HttpErrorKind, IoErrorClass};

verus! {

/// Everything the classification of an engine failure depends on: the
/// engine's self-reported category flags and the last input-output failure
/// found in the cause chain, if any.
pub struct FailureFlags {
    pub timeout: bool,
    pub status: bool,
    pub builder: bool,
    pub request: bool,
    pub redirect: bool,
    pub body: bool,
    pub decode: bool,
    pub io_cause: Option<IoErrorClass>,
}

/// The input-output sub-table: the taxonomy kind for each recognized
/// input-output failure cause.
pub open spec fn spec_classify_io(c: IoErrorClass) -> HttpErrorKind {
    match c {
        IoErrorClass::NotFound => HttpErrorKind::NotFound,
        IoErrorClass::PermissionDenied => HttpErrorKind::PermissionDenied,
        IoErrorClass::ConnectionRefused => HttpErrorKind::ConnectionRefused,
        IoErrorClass::ConnectionReset => HttpErrorKind::ConnectionReset,
        IoErrorClass::ConnectionAborted => HttpErrorKind::ConnectionAborted,
        IoErrorClass::NotConnected => HttpErrorKind::NotConnected,
        IoErrorClass::AddrInUse => HttpErrorKind::AddrInUse,
        IoErrorClass::AddrNotAvailable => HttpErrorKind::AddrNotAvailable,
        IoErrorClass::BrokenPipe => HttpErrorKind::BrokenPipe,
        IoErrorClass::AlreadyExists => HttpErrorKind::AlreadyExists,
        IoErrorClass::WouldBlock => HttpErrorKind::WouldBlock,
        IoErrorClass::InvalidInput => HttpErrorKind::InvalidInput,
        IoErrorClass::InvalidData => HttpErrorKind::InvalidData,
        IoErrorClass::TimedOut => HttpErrorKind::TimedOut,
        IoErrorClass::WriteZero => HttpErrorKind::WriteZero,
        IoErrorClass::Interrupted => HttpErrorKind::Interrupted,
        IoErrorClass::Unsupported => HttpErrorKind::Unsupported,
        IoErrorClass::UnexpectedEof => HttpErrorKind::UnexpectedEof,
        IoErrorClass::OutOfMemory => HttpErrorKind::OutOfMemory,
        IoErrorClass::OtherIo => HttpErrorKind::Other,
    }
}

/// The full classification: self-reported flags take priority in a fixed
/// order; otherwise the last input-output cause decides; otherwise the
/// catch-all kind.
pub open spec fn spec_classify(f: FailureFlags) -> HttpErrorKind {
    if f.timeout {
        HttpErrorKind::HttpTimeout
    } else if f.status {
        HttpErrorKind::HttpStatus
    } else if f.builder {
        HttpErrorKind::HttpBuilder
    } else if f.request {
        HttpErrorKind::HttpRequest
    } else if f.redirect {
        HttpErrorKind::HttpRedirect
    } else if f.body {
        HttpErrorKind::HttpBody
    } else if f.decode {
        HttpErrorKind::HttpDecode
    } else {
        match f.io_cause {
            Some(c) => spec_classify_io(c),
            None => HttpErrorKind::Other,
        }
    }
}

/// A kind that classification can produce: every failure kind except the
/// cleared state and the two kinds reserved for boundary-argument errors.
pub open spec fn is_classification_kind(k: HttpErrorKind) -> bool {
    k != HttpErrorKind::NoError && k != HttpErrorKind::HttpHandleNull && k
        != HttpErrorKind::CharConversion
}

pub fn classify_io(c: IoErrorClass) -> (k: HttpErrorKind)
    ensures
        k == spec_classify_io(c),
{
    match c {
        IoErrorClass::NotFound => HttpErrorKind::NotFound,
        IoErrorClass::PermissionDenied => HttpErrorKind::PermissionDenied,
        IoErrorClass::ConnectionRefused => HttpErrorKind::ConnectionRefused,
        IoErrorClass::ConnectionReset => HttpErrorKind::ConnectionReset,
        IoErrorClass::ConnectionAborted => HttpErrorKind::ConnectionAborted,
        IoErrorClass::NotConnected => HttpErrorKind::NotConnected,
        IoErrorClass::AddrInUse => HttpErrorKind::AddrInUse,
        IoErrorClass::AddrNotAvailable => HttpErrorKind::AddrNotAvailable,
        IoErrorClass::BrokenPipe => HttpErrorKind::BrokenPipe,
        IoErrorClass::AlreadyExists => HttpErrorKind::AlreadyExists,
        IoErrorClass::WouldBlock => HttpErrorKind::WouldBlock,
        IoErrorClass::InvalidInput => HttpErrorKind::InvalidInput,
        IoErrorClass::InvalidData => HttpErrorKind::InvalidData,
        IoErrorClass::TimedOut => HttpErrorKind::TimedOut,
        IoErrorClass::WriteZero => HttpErrorKind::WriteZero,
        IoErrorClass::Interrupted => HttpErrorKind::Interrupted,
        IoErrorClass::Unsupported => HttpErrorKind::Unsupported,
        IoErrorClass::UnexpectedEof => HttpErrorKind::UnexpectedEof,
        IoErrorClass::OutOfMemory => HttpErrorKind::OutOfMemory,
        IoErrorClass::OtherIo => HttpErrorKind::Other,
    }
}

pub fn classify_failure(f: &FailureFlags) -> (k: HttpErrorKind)
    ensures
        k == spec_classify(*f),
{
    if f.timeout {
        HttpErrorKind::HttpTimeout
    } else if f.status {
        HttpErrorKind::HttpStatus
    } else if f.builder {
        HttpErrorKind::HttpBuilder
    } else if f.request {
        HttpErrorKind::HttpRequest
    } else if f.redirect {
        HttpErrorKind::HttpRedirect
    } else if f.body {
        HttpErrorKind::HttpBody
    } else if f.decode {
        HttpErrorKind::HttpDecode
    } else {
        match f.io_cause {
            Some(c) => classify_io(c),
            None => HttpErrorKind::Other,
        }
    }
}

/// Law: a failure the engine reports as a timeout is always classified as
/// the timeout kind, whatever else the failure carries — never the
/// catch-all kind.
pub proof fn lemma_timeout_always_timeout_kind(f: FailureFlags)
    requires
        f.timeout,
    ensures
        spec_classify(f) == HttpErrorKind::HttpTimeout,
{
}

/// Law: classification never produces the cleared state nor the kinds
/// reserved for null handles and text-conversion failures; those are
/// recorded only by the boundary itself.
pub proof fn lemma_classification_is_failure_kind(f: FailureFlags)
    ensures
        is_classification_kind(spec_classify(f)),
{
}

/// Law: the input-output sub-table, too, never produces the cleared state
/// nor the kinds reserved for boundary-argument errors.
pub proof fn lemma_io_classification_is_failure_kind(c: IoErrorClass)
    ensures
        is_classification_kind(spec_classify_io(c)),
{
}

/// Read off an engine failure everything its classification depends on.
/// The flags come from the engine, so nothing is promised of their values;
/// the classification of whatever comes back is exact.
pub(crate) fn failure_flags_of(e: &reqwest::Error) -> FailureFlags {
    let io_cause = match engine::err_last_io_kind(e) {
        Some(k) => Some(class_of_io_kind(&k)),
        None => None,
    };
    FailureFlags {
        timeout: engine::err_is_timeout(e),
        status: engine::err_is_status(e),
        builder: engine::err_is_builder(e),
        request: engine::err_is_request(e),
        redirect: engine::err_is_redirect(e),
        body: engine::err_is_body(e),
        decode: engine::err_is_decode(e),
        io_cause,
    }
}

/// The recognized cause class of a platform input-output error category.
pub(crate) fn class_of_io_kind(k: &std::io::ErrorKind) -> IoErrorClass {
    match engine::io_kind_class_conn(k) {
        Some(c) => c,
        None => engine::io_kind_class_data(k),
    }
}

/// Classify an engine failure and record it in the last-error channel with
/// the engine's own rendering of the failure as the message.
pub(crate) fn record_engine_error(ch: &mut crate::channel::ErrorChannel, e: &reqwest::Error)
    ensures
        final(ch).last matches Some(rec) && is_classification_kind(rec.error_kind),
{
    let flags = failure_flags_of(e);
    let kind = classify_failure(&flags);
    proof {
        lemma_classification_is_failure_kind(flags);
    }
    crate::channel::update_last_error(ch, kind, engine::err_message(e));
}

} // verus!

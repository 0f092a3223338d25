//! The closed taxonomy of classifiable failure causes.

use vstd::prelude::*;

verus! {

/// Every failure that crosses the boundary is classified into exactly one
/// of these kinds before it is stored in the last-error channel.
#[derive(Clone, Copy, Debug, PartialEq, Eq, Structural)]
pub enum HttpErrorKind {
    /// No failure; the state of a cleared error record.
    NoError,
    /// A null handle was passed where a live one was required.
    HttpHandleNull,
    /// A textual argument could not be converted to valid UTF-8 text.
    CharConversion,
    /// The protocol engine reported a timeout.
    HttpTimeout,
    /// The protocol engine reported a status-code failure.
    HttpStatus,
    /// The protocol engine reported a builder misconfiguration.
    HttpBuilder,
    /// The protocol engine reported a malformed or unsendable request.
    HttpRequest,
    /// The protocol engine reported a redirect loop or limit.
    HttpRedirect,
    /// The protocol engine reported a body-related failure.
    HttpBody,
    /// The protocol engine reported a decode failure.
    HttpDecode,
    NotFound,
    PermissionDenied,
    ConnectionRefused,
    ConnectionReset,
    ConnectionAborted,
    NotConnected,
    AddrInUse,
    AddrNotAvailable,
    BrokenPipe,
    AlreadyExists,
    WouldBlock,
    InvalidInput,
    InvalidData,
    TimedOut,
    WriteZero,
    Interrupted,
    Unsupported,
    UnexpectedEof,
    OutOfMemory,
    /// The catch-all kind for failures no other kind covers.
    Other,
}

/// The input-output failure causes that the classifier can recognize in an
/// engine failure's cause chain; a plain mirror of the platform's own
/// input-output error categories, so that classification itself is ordinary
/// verified logic on plain values.
#[derive(Clone, Copy, Debug, PartialEq, Eq, Structural)]
pub enum IoErrorClass {
    NotFound,
    PermissionDenied,
    ConnectionRefused,
    ConnectionReset,
    ConnectionAborted,
    NotConnected,
    AddrInUse,
    AddrNotAvailable,
    BrokenPipe,
    AlreadyExists,
    WouldBlock,
    InvalidInput,
    InvalidData,
    TimedOut,
    WriteZero,
    Interrupted,
    Unsupported,
    UnexpectedEof,
    OutOfMemory,
    /// Any input-output category the classifier does not distinguish.
    OtherIo,
}

} // verus!

use rest_client::classify::{classify_failure, classify_io, FailureFlags};
use rest_client::kinds::{HttpErrorKind, IoErrorClass};

fn no_flags() -> FailureFlags {
    FailureFlags {
        timeout: false,
        status: false,
        builder: false,
        request: false,
        redirect: false,
        body: false,
        decode: false,
        io_cause: None,
    }
}

#[test]
fn simulated_timeout_is_always_timeout_kind() {
    let f = FailureFlags { timeout: true, ..no_flags() };
    assert_eq!(classify_failure(&f), HttpErrorKind::HttpTimeout);
    assert_eq!(classify_failure(&f), HttpErrorKind::HttpTimeout);
    let noisy = FailureFlags {
        timeout: true,
        status: true,
        decode: true,
        io_cause: Some(IoErrorClass::ConnectionRefused),
        ..no_flags()
    };
    assert_eq!(classify_failure(&noisy), HttpErrorKind::HttpTimeout);
    assert_ne!(classify_failure(&noisy), HttpErrorKind::Other);
}

#[test]
fn self_reported_flags_take_priority_in_order() {
    let f = FailureFlags { status: true, builder: true, ..no_flags() };
    assert_eq!(classify_failure(&f), HttpErrorKind::HttpStatus);
    let f = FailureFlags { builder: true, request: true, ..no_flags() };
    assert_eq!(classify_failure(&f), HttpErrorKind::HttpBuilder);
    let f = FailureFlags { request: true, redirect: true, ..no_flags() };
    assert_eq!(classify_failure(&f), HttpErrorKind::HttpRequest);
    let f = FailureFlags { redirect: true, body: true, ..no_flags() };
    assert_eq!(classify_failure(&f), HttpErrorKind::HttpRedirect);
    let f = FailureFlags { body: true, decode: true, ..no_flags() };
    assert_eq!(classify_failure(&f), HttpErrorKind::HttpBody);
    let f = FailureFlags { decode: true, ..no_flags() };
    assert_eq!(classify_failure(&f), HttpErrorKind::HttpDecode);
}

#[test]
fn unflagged_failure_falls_back_to_io_cause() {
    let f = FailureFlags { io_cause: Some(IoErrorClass::ConnectionRefused), ..no_flags() };
    assert_eq!(classify_failure(&f), HttpErrorKind::ConnectionRefused);
    let f = FailureFlags { io_cause: Some(IoErrorClass::UnexpectedEof), ..no_flags() };
    assert_eq!(classify_failure(&f), HttpErrorKind::UnexpectedEof);
    let f = no_flags();
    assert_eq!(classify_failure(&f), HttpErrorKind::Other);
}

#[test]
fn io_sub_table_is_exact() {
    assert_eq!(classify_io(IoErrorClass::NotFound), HttpErrorKind::NotFound);
    assert_eq!(classify_io(IoErrorClass::PermissionDenied), HttpErrorKind::PermissionDenied);
    assert_eq!(classify_io(IoErrorClass::ConnectionReset), HttpErrorKind::ConnectionReset);
    assert_eq!(classify_io(IoErrorClass::ConnectionAborted), HttpErrorKind::ConnectionAborted);
    assert_eq!(classify_io(IoErrorClass::NotConnected), HttpErrorKind::NotConnected);
    assert_eq!(classify_io(IoErrorClass::AddrInUse), HttpErrorKind::AddrInUse);
    assert_eq!(classify_io(IoErrorClass::AddrNotAvailable), HttpErrorKind::AddrNotAvailable);
    assert_eq!(classify_io(IoErrorClass::BrokenPipe), HttpErrorKind::BrokenPipe);
    assert_eq!(classify_io(IoErrorClass::AlreadyExists), HttpErrorKind::AlreadyExists);
    assert_eq!(classify_io(IoErrorClass::WouldBlock), HttpErrorKind::WouldBlock);
    assert_eq!(classify_io(IoErrorClass::InvalidInput), HttpErrorKind::InvalidInput);
    assert_eq!(classify_io(IoErrorClass::InvalidData), HttpErrorKind::InvalidData);
    assert_eq!(classify_io(IoErrorClass::TimedOut), HttpErrorKind::TimedOut);
    assert_eq!(classify_io(IoErrorClass::WriteZero), HttpErrorKind::WriteZero);
    assert_eq!(classify_io(IoErrorClass::Interrupted), HttpErrorKind::Interrupted);
    assert_eq!(classify_io(IoErrorClass::Unsupported), HttpErrorKind::Unsupported);
    assert_eq!(classify_io(IoErrorClass::UnexpectedEof), HttpErrorKind::UnexpectedEof);
    assert_eq!(classify_io(IoErrorClass::OutOfMemory), HttpErrorKind::OutOfMemory);
    assert_eq!(classify_io(IoErrorClass::OtherIo), HttpErrorKind::Other);
}

//! The single-slot last-error channel and the error record it stores.
//!
//! The channel replaces exception propagation at the boundary: any failing
//! call overwrites the slot unconditionally, and the caller reads and clears
//! it atomically with a take operation. The channel is an explicit value so
//! that its whole behaviour is stated here; the unverified boundary shell
//! keeps one channel per execution thread.

use vstd::prelude::*;
use vstd::string::StringSliceAdditionalSpecFns;

use crate::kinds::HttpErrorKind;

verus! {

/// One stored failure: its classified kind and a human-readable message.
pub struct HttpException {
    pub error_kind: HttpErrorKind,
    pub err_msg: String,
}

impl HttpException {
    pub fn new(error_kind: HttpErrorKind, err_msg: String) -> (r: Self)
        ensures
            r.error_kind == error_kind,
            r.err_msg@ == err_msg@,
    {
        Self { error_kind, err_msg }
    }

    /// Reset the record to the no-error state with an empty message.
    pub fn clear_error(&mut self)
        ensures
            final(self).error_kind == HttpErrorKind::NoError,
            final(self).err_msg@ == Seq::<char>::empty(),
    {
        self.error_kind = HttpErrorKind::NoError;
        self.err_msg = String::new();
    }
}

/// Single-slot storage for the most recent failure. At most one record is
/// live at a time; a new failure overwrites whatever was there.
pub struct ErrorChannel {
    pub last: Option<HttpException>,
}

impl ErrorChannel {
    /// A fresh channel holds no record.
    pub fn new() -> (r: Self)
        ensures
            r.last is None,
    {
        Self { last: None }
    }
}

/// The channel holds a record of this kind.
pub open spec fn holds_kind(ch: ErrorChannel, k: HttpErrorKind) -> bool {
    ch.last matches Some(e) && e.error_kind == k
}

/// Overwrite the most recent error, whether or not the previous record was
/// ever read.
pub fn update_last_error(ch: &mut ErrorChannel, kind: HttpErrorKind, msg: String)
    ensures
        final(ch).last matches Some(e) && e.error_kind == kind && e.err_msg@ == msg@,
{
    ch.last = Some(HttpException::new(kind, msg));
}

/// Return the most recent error record, clearing the channel in the process.
pub fn take_last_error(ch: &mut ErrorChannel) -> (r: Option<HttpException>)
    ensures
        r == old(ch).last,
        final(ch).last is None,
{
    ch.last.take()
}

/// Return the most recent error record as an owned handle, clearing the
/// channel; the null handle when no failure was recorded since the last take.
pub fn take_last_http_error(ch: &mut ErrorChannel) -> (r: Option<HttpException>)
    ensures
        r == old(ch).last,
        final(ch).last is None,
{
    take_last_error(ch)
}

/// The classified kind of the record behind a borrowed error handle; the
/// null-handle kind when the handle is null.
pub fn http_err_kind(handle: &Option<HttpException>) -> (r: HttpErrorKind)
    ensures
        handle matches Some(e) ==> r == e.error_kind,
        handle is None ==> r == HttpErrorKind::HttpHandleNull,
{
    match handle {
        Some(e) => e.error_kind,
        None => HttpErrorKind::HttpHandleNull,
    }
}

/// The length of the record's message, in bytes — the count a foreign
/// reader pairs with the message pointer; the zero sentinel when the handle
/// is null.
pub fn http_err_msg_len(handle: &Option<HttpException>) -> (r: u64)
    ensures
        handle matches Some(e) ==> r == crate::text::byte_len_usize(e.err_msg@) as u64,
        handle is None ==> r == 0,
{
    match handle {
        Some(e) => {
            let text = e.err_msg.as_str();
            let n = text.len();
            proof {
                assert(text.spec_bytes() == vstd::utf8::encode_utf8(text@));
            }
            n as u64
        },
        None => 0,
    }
}

/// Borrow the record's message text; the null sentinel when the handle is
/// null. The handle stays valid for repeated queries.
pub fn http_err_msg(handle: &Option<HttpException>) -> (r: Option<&str>)
    ensures
        handle matches Some(e) ==> (r matches Some(s) && s@ == e.err_msg@),
        handle is None ==> r is None,
{
    match handle {
        Some(e) => Some(e.err_msg.as_str()),
        None => None,
    }
}

/// Reset the record behind a non-null handle to the no-error state; a no-op
/// on the null handle.
pub fn http_err_clear(handle: &mut Option<HttpException>)
    ensures
        (*old(handle)) is None ==> (*final(handle)) is None,
        (*old(handle)) is Some ==> ((*final(handle)) matches Some(e)
            && e.error_kind == HttpErrorKind::NoError
            && e.err_msg@ == Seq::<char>::empty()),
{
    match handle {
        Some(e) => e.clear_error(),
        None => (),
    }
}

/// Release a non-null error handle; a no-op on the null handle, however
/// often it is repeated.
pub fn http_err_destroy(handle: Option<HttpException>) {
    let _ = handle;
}

} // verus!

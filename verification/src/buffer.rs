//! Owned-buffer handoff types.
//!
//! A data-producing call materializes a contiguous byte or text sequence
//! into one of these wrappers and hands the caller the whole buffer; the
//! caller owns it exclusively until the matching destroy call. The length
//! and content queries are borrowing and repeatable. Any query on a null
//! buffer handle returns a zero or null sentinel: buffer emptiness is a
//! legitimate terminal state, not a caller error — except for the response
//! body queries, which also record the null-handle kind, as the boundary
//! they serve demands.

use vstd::prelude::*;
use vstd::string::{StringExecFns, StringSliceAdditionalSpecFns};

use crate::channel::{update_last_error, ErrorChannel};
use crate::kinds::HttpErrorKind;

verus! {

/// A caller-owned byte sequence.
pub struct ByteBuffer {
    inner: Vec<u8>,
}

impl View for ByteBuffer {
    type V = Seq<u8>;

    closed spec fn view(&self) -> Seq<u8> {
        self.inner@
    }
}

impl ByteBuffer {
    pub fn new(data: Vec<u8>) -> (r: Self)
        ensures
            r@ == data@,
    {
        Self { inner: data }
    }
}

/// A caller-owned copy of a response body.
pub struct RespBody {
    inner: Vec<u8>,
}

impl View for RespBody {
    type V = Seq<u8>;

    closed spec fn view(&self) -> Seq<u8> {
        self.inner@
    }
}

impl RespBody {
    pub fn new(data: Vec<u8>) -> (r: Self)
        ensures
            r@ == data@,
    {
        Self { inner: data }
    }
}

/// Release a response-body buffer; a no-op on the null handle, however
/// often it is repeated.
pub fn free_resp_body(handle: Option<RespBody>) {
    let _ = handle;
}

/// The byte length of the buffer behind the handle. On the null handle the
/// call records the null-handle kind and returns the zero sentinel.
pub fn resp_body_content_len(ch: &mut ErrorChannel, handle: &Option<RespBody>) -> (r: u64)
    ensures
        handle matches Some(b) ==> (r == b@.len() && *final(ch) == *old(ch)),
        handle is None ==> (r == 0
            && (final(ch).last matches Some(e) && e.error_kind == HttpErrorKind::HttpHandleNull)),
{
    match handle {
        Some(b) => b.inner.len() as u64,
        None => {
            update_last_error(
                ch,
                HttpErrorKind::HttpHandleNull,
                String::from_str("resp body handle is null when use len"),
            );
            0
        },
    }
}

/// Borrow the bytes behind the handle; they stay readable until the buffer
/// is destroyed. On the null handle the call records the null-handle kind
/// and returns the null sentinel.
pub fn resp_body_content<'a>(
    ch: &mut ErrorChannel,
    handle: &'a Option<RespBody>,
) -> (r: Option<&'a [u8]>)
    ensures
        handle matches Some(b) ==> (r matches Some(s) && s@ == b@ && *final(ch) == *old(ch)),
        handle is None ==> (r is None
            && (final(ch).last matches Some(e) && e.error_kind == HttpErrorKind::HttpHandleNull)),
{
    match handle {
        Some(b) => Some(b.inner.as_slice()),
        None => {
            update_last_error(
                ch,
                HttpErrorKind::HttpHandleNull,
                String::from_str("resp body handle is null when use content"),
            );
            None
        },
    }
}

/// A caller-owned text buffer crossing the boundary.
pub struct RString {
    inner: String,
}

impl View for RString {
    type V = Seq<char>;

    closed spec fn view(&self) -> Seq<char> {
        self.inner@
    }
}

impl RString {
    pub fn new(s: String) -> (r: Self)
        ensures
            r@ == s@,
    {
        Self { inner: s }
    }

    /// The length of the text, in bytes — the count a foreign reader pairs
    /// with the borrowed text.
    pub fn data_len(&self) -> (r: usize)
        ensures
            r == crate::text::byte_len_usize(self@),
    {
        let text = self.inner.as_str();
        let n = text.len();
        proof {
            assert(text.spec_bytes() == vstd::utf8::encode_utf8(text@));
        }
        n
    }

    /// Borrow the text itself; valid for repeated queries until the buffer
    /// is destroyed.
    pub fn data_ptr(&self) -> (r: &str)
        ensures
            r@ == self@,
    {
        self.inner.as_str()
    }
}

/// Release a text buffer; a no-op on the null handle, however often it is
/// repeated.
pub fn free_r_string(handle: Option<RString>) {
    let _ = handle;
}

/// The byte length of the text behind the handle; the zero sentinel on the
/// null handle.
pub fn r_string_len(handle: &Option<RString>) -> (r: u64)
    ensures
        handle matches Some(s) ==> r == crate::text::byte_len_usize(s@) as u64,
        handle is None ==> r == 0,
{
    match handle {
        Some(s) => s.data_len() as u64,
        None => 0,
    }
}

/// Borrow the text behind the handle; the null sentinel on the null handle.
pub fn r_string_bytes(handle: &Option<RString>) -> (r: Option<&str>)
    ensures
        handle matches Some(s) ==> (r matches Some(t) && t@ == s@),
        handle is None ==> r is None,
{
    match handle {
        Some(s) => Some(s.data_ptr()),
        None => None,
    }
}

} // verus!

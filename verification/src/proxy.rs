//! Proxy handles: each carries the engine's proxy object and, as a ghost,
//! the scheme text it was created from, which is all the configuration
//! model needs to record.

use vstd::prelude::*;
use vstd::string::StringExecFns;

use crate::channel::{holds_kind, update_last_error, ErrorChannel};
use crate::engine;
use crate::kinds::HttpErrorKind;
use crate::text::{to_rust_str, TextArg};

verus! {

/// A proxy handle: the engine's proxy and the scheme it intercepts for.
pub struct ProxyHandle {
    inner: reqwest::Proxy,
    scheme: Ghost<Seq<char>>,
}

impl View for ProxyHandle {
    type V = Seq<char>;

    closed spec fn view(&self) -> Seq<char> {
        self.scheme@
    }
}

impl ProxyHandle {
    /// Hand the engine's proxy object over to a consuming call.
    pub(crate) fn into_engine(self) -> reqwest::Proxy {
        self.inner
    }
}

/// Release a proxy handle; a no-op on the null handle.
pub fn proxy_destroy(handle: Option<ProxyHandle>) {
    let _ = handle;
}

/// Intercept plain-protocol traffic through the given scheme. The handle
/// exists exactly when the engine's scheme intake accepts the text; a
/// refused text records the catch-all kind.
pub fn proxy_http(ch: &mut ErrorChannel, proxy_scheme: &TextArg) -> (r: Option<ProxyHandle>)
    ensures
        proxy_scheme is Null ==> (r is None && holds_kind(
            *final(ch),
            HttpErrorKind::HttpHandleNull,
        )),
        proxy_scheme is Malformed ==> (r is None && holds_kind(
            *final(ch),
            HttpErrorKind::CharConversion,
        )),
        (proxy_scheme is Text && engine::is_proxy_scheme(proxy_scheme->0@)) ==> (*final(ch)
            == *old(ch) && r is Some && r->0@ == proxy_scheme->0@),
        (proxy_scheme is Text && !engine::is_proxy_scheme(proxy_scheme->0@)) ==> (r is None
            && holds_kind(*final(ch), HttpErrorKind::Other)),
{
    let s = match proxy_scheme {
        TextArg::Null => {
            update_last_error(
                ch,
                HttpErrorKind::HttpHandleNull,
                String::from_str("proxy_scheme is null"),
            );
            return None;
        },
        _ => match to_rust_str(ch, proxy_scheme, "proxy_scheme parse error") {
            Some(s) => s,
            None => {
                return None;
            },
        },
    };
    match engine::proxy_http_new(s.as_str()) {
        Ok(p) => Some(ProxyHandle { inner: p, scheme: Ghost(s@) }),
        Err(e) => {
            let mut msg = String::from_str("proxy fail: ");
            msg.append(engine::err_message(&e).as_str());
            update_last_error(ch, HttpErrorKind::Other, msg);
            None
        },
    }
}

/// Intercept secure-protocol traffic through the given scheme, with the
/// argument discipline of the plain-protocol call.
pub fn proxy_https(ch: &mut ErrorChannel, proxy_scheme: &TextArg) -> (r: Option<ProxyHandle>)
    ensures
        proxy_scheme is Null ==> (r is None && holds_kind(
            *final(ch),
            HttpErrorKind::HttpHandleNull,
        )),
        proxy_scheme is Malformed ==> (r is None && holds_kind(
            *final(ch),
            HttpErrorKind::CharConversion,
        )),
        (proxy_scheme is Text && engine::is_proxy_scheme(proxy_scheme->0@)) ==> (*final(ch)
            == *old(ch) && r is Some && r->0@ == proxy_scheme->0@),
        (proxy_scheme is Text && !engine::is_proxy_scheme(proxy_scheme->0@)) ==> (r is None
            && holds_kind(*final(ch), HttpErrorKind::Other)),
{
    let s = match proxy_scheme {
        TextArg::Null => {
            update_last_error(
                ch,
                HttpErrorKind::HttpHandleNull,
                String::from_str("proxy_scheme is null"),
            );
            return None;
        },
        _ => match to_rust_str(ch, proxy_scheme, "proxy_scheme parse error") {
            Some(s) => s,
            None => {
                return None;
            },
        },
    };
    match engine::proxy_https_new(s.as_str()) {
        Ok(p) => Some(ProxyHandle { inner: p, scheme: Ghost(s@) }),
        Err(e) => {
            let mut msg = String::from_str("proxy fail: ");
            msg.append(engine::err_message(&e).as_str());
            update_last_error(ch, HttpErrorKind::Other, msg);
            None
        },
    }
}

/// Intercept all traffic through the given scheme, with the argument
/// discipline of the plain-protocol call.
pub fn proxy_all(ch: &mut ErrorChannel, proxy_scheme: &TextArg) -> (r: Option<ProxyHandle>)
    ensures
        proxy_scheme is Null ==> (r is None && holds_kind(
            *final(ch),
            HttpErrorKind::HttpHandleNull,
        )),
        proxy_scheme is Malformed ==> (r is None && holds_kind(
            *final(ch),
            HttpErrorKind::CharConversion,
        )),
        (proxy_scheme is Text && engine::is_proxy_scheme(proxy_scheme->0@)) ==> (*final(ch)
            == *old(ch) && r is Some && r->0@ == proxy_scheme->0@),
        (proxy_scheme is Text && !engine::is_proxy_scheme(proxy_scheme->0@)) ==> (r is None
            && holds_kind(*final(ch), HttpErrorKind::Other)),
{
    let s = match proxy_scheme {
        TextArg::Null => {
            update_last_error(
                ch,
                HttpErrorKind::HttpHandleNull,
                String::from_str("proxy_scheme is null"),
            );
            return None;
        },
        _ => match to_rust_str(ch, proxy_scheme, "proxy_scheme parse error") {
            Some(s) => s,
            None => {
                return None;
            },
        },
    };
    match engine::proxy_all_new(s.as_str()) {
        Ok(p) => Some(ProxyHandle { inner: p, scheme: Ghost(s@) }),
        Err(e) => {
            let mut msg = String::from_str("proxy fail: ");
            msg.append(engine::err_message(&e).as_str());
            update_last_error(ch, HttpErrorKind::Other, msg);
            None
        },
    }
}

} // verus!

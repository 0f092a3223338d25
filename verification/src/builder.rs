//! The consuming builder chain for clients, with a ghost model of the
//! accumulated configuration.
//!
//! Every configuration call consumes its input handle and returns a fresh
//! one, or the null handle after recording a failure; the caller's old
//! handle is never valid afterwards, even on the failure path, where the
//! underlying object is released rather than returned. Alongside the opaque
//! engine builder, each handle carries a ghost map from tunable to chosen
//! value; each call's contract pins exactly how it updates that map, and
//! the laws at the end show that calls on unrelated tunables can be made in
//! either order.

use vstd::prelude::*;
use vstd::string::StringExecFns;

use crate::channel::{holds_kind, update_last_error, ErrorChannel};
use crate::engine;
use crate::engine::{hm_view, TlsVersion};
use crate::kinds::HttpErrorKind;
use crate::proxy::ProxyHandle;
use crate::text::{to_rust_str, TextArg};

verus! {

/// The tunables a client builder accumulates. Calls that write the same
/// underlying engine setting share one key, so the order-independence law
/// below speaks only of genuinely unrelated calls.
#[derive(PartialEq, Eq, Structural)]
pub enum CfgKey {
    DefaultHeaders,
    UserAgent,
    RedirectLimit,
    Referer,
    Proxies,
    Timeout,
    ConnectTimeout,
    PoolIdleTimeout,
    PoolMaxIdlePerHost,
    Http1TitleCaseHeaders,
    Http1AllowObsoleteMultilineHeadersInResponses,
    Http09Responses,
    HttpVersionPref,
    Http2InitialStreamWindowSize,
    Http2InitialConnectionWindowSize,
    Http2AdaptiveWindow,
    Http2MaxFrameSize,
    TcpNodelay,
    LocalAddress,
    TcpKeepalive,
    RootCertificates,
    TlsBuiltInRootCerts,
    DangerAcceptInvalidCerts,
    TlsSni,
    MinTlsVersion,
    MaxTlsVersion,
    HickoryDns,
    HttpsOnly,
    DnsOverrides,
    TlsBackend,
}

/// The protocol-version preference a builder can be pinned to.
#[derive(PartialEq, Eq, Structural)]
pub enum VersionPref {
    Http1,
    Http2,
}

/// The transport-security backend a builder can be pinned to.
#[derive(PartialEq, Eq, Structural)]
pub enum TlsBackendChoice {
    Rustls,
    NativeTls,
}

/// The value a tunable holds in the configuration model.
pub enum CfgVal {
    Flag(bool),
    Count(int),
    OptCount(Option<int>),
    Text(Seq<char>),
    Headers(Map<Seq<char>, Seq<Seq<char>>>),
    Texts(Seq<Seq<char>>),
    Certs(Seq<Seq<u8>>),
    TextMap(Map<Seq<char>, Seq<Seq<char>>>),
    Tls(TlsVersion),
    Pref(VersionPref),
    Backend(TlsBackendChoice),
}

/// A client builder handle: the engine's opaque builder, with the ghost
/// model of everything configured so far.
pub struct ClientBuilderHandle {
    inner: reqwest::blocking::ClientBuilder,
    config: Ghost<Map<CfgKey, CfgVal>>,
}

impl View for ClientBuilderHandle {
    type V = Map<CfgKey, CfgVal>;

    closed spec fn view(&self) -> Map<CfgKey, CfgVal> {
        self.config@
    }
}

/// An optional number of milliseconds, as the model records it.
pub open spec fn opt_millis_val(ms: Option<u64>) -> CfgVal {
    match ms {
        Some(v) => CfgVal::OptCount(Some(v as int)),
        None => CfgVal::OptCount(None),
    }
}

/// An optional window or frame size, as the model records it.
pub open spec fn opt_size_val(sz: Option<u32>) -> CfgVal {
    match sz {
        Some(v) => CfgVal::OptCount(Some(v as int)),
        None => CfgVal::OptCount(None),
    }
}

/// The proxies added so far, oldest first.
pub open spec fn cfg_proxies(m: Map<CfgKey, CfgVal>) -> Seq<Seq<char>> {
    if m.dom().contains(CfgKey::Proxies) && m[CfgKey::Proxies] is Texts {
        m[CfgKey::Proxies]->Texts_0
    } else {
        Seq::empty()
    }
}

/// The extra root certificates added so far, oldest first.
pub open spec fn cfg_certs(m: Map<CfgKey, CfgVal>) -> Seq<Seq<u8>> {
    if m.dom().contains(CfgKey::RootCertificates) && m[CfgKey::RootCertificates] is Certs {
        m[CfgKey::RootCertificates]->Certs_0
    } else {
        Seq::empty()
    }
}

/// The name-resolution overrides added so far.
pub open spec fn cfg_dns(m: Map<CfgKey, CfgVal>) -> Map<Seq<char>, Seq<Seq<char>>> {
    if m.dom().contains(CfgKey::DnsOverrides) && m[CfgKey::DnsOverrides] is TextMap {
        m[CfgKey::DnsOverrides]->TextMap_0
    } else {
        Map::empty()
    }
}

/// The model's update for adding one proxy.
pub open spec fn with_proxy(m: Map<CfgKey, CfgVal>, scheme: Seq<char>) -> Map<CfgKey, CfgVal> {
    m.insert(CfgKey::Proxies, CfgVal::Texts(cfg_proxies(m).push(scheme)))
}

/// The model's update for adding one root certificate.
pub open spec fn with_cert(m: Map<CfgKey, CfgVal>, der: Seq<u8>) -> Map<CfgKey, CfgVal> {
    m.insert(CfgKey::RootCertificates, CfgVal::Certs(cfg_certs(m).push(der)))
}

/// The model's update for overriding one domain's resolution.
pub open spec fn with_dns(
    m: Map<CfgKey, CfgVal>,
    domain: Seq<char>,
    addrs: Seq<Seq<char>>,
) -> Map<CfgKey, CfgVal> {
    m.insert(CfgKey::DnsOverrides, CfgVal::TextMap(cfg_dns(m).insert(domain, addrs)))
}

/// Construct a fresh builder handle with nothing configured.
pub fn new_client_builder() -> (r: Option<ClientBuilderHandle>)
    ensures
        r is Some && r->0@ == Map::<CfgKey, CfgVal>::empty(),
{
    Some(
        ClientBuilderHandle {
            inner: engine::cb_new(),
            config: Ghost(Map::empty()),
        },
    )
}

/// Release a builder without building; a no-op on the null handle.
pub fn client_builder_destroy(handle: Option<ClientBuilderHandle>) {
    let _ = handle;
}

/// Enable or disable automatic setting of the referer header.
pub fn client_builder_referer(ch: &mut ErrorChannel, handle: Option<ClientBuilderHandle>, enable: bool) -> (r: Option<
    ClientBuilderHandle,
>)
    ensures
        handle is None ==> (r is None && holds_kind(*final(ch), HttpErrorKind::HttpHandleNull)),
        handle is Some ==> (*final(ch) == *old(ch) && r is Some && r->0@ == handle->0@.insert(
            CfgKey::Referer,
            CfgVal::Flag(enable),
        )),
{
    match handle {
        Some(b) => {
            let ClientBuilderHandle { inner, config } = b;
            Some(
                ClientBuilderHandle {
                    inner: engine::cb_referer(inner, enable),
                    config: Ghost(config@.insert(CfgKey::Referer, CfgVal::Flag(enable))),
                },
            )
        },
        None => {
            update_last_error(
                ch,
                HttpErrorKind::HttpHandleNull,
                String::from_str("client_builder handle is null"),
            );
            None
        },
    }
}

/// Set whether first-version connections accept obsolete line folding in header values.
pub fn client_builder_http1_allow_obsolete_multiline_headers_in_responses(ch: &mut ErrorChannel, handle: Option<ClientBuilderHandle>, val: bool) -> (r: Option<
    ClientBuilderHandle,
>)
    ensures
        handle is None ==> (r is None && holds_kind(*final(ch), HttpErrorKind::HttpHandleNull)),
        handle is Some ==> (*final(ch) == *old(ch) && r is Some && r->0@ == handle->0@.insert(
            CfgKey::Http1AllowObsoleteMultilineHeadersInResponses,
            CfgVal::Flag(val),
        )),
{
    match handle {
        Some(b) => {
            let ClientBuilderHandle { inner, config } = b;
            Some(
                ClientBuilderHandle {
                    inner: engine::cb_http1_allow_obsolete_multiline_headers_in_responses(inner, val),
                    config: Ghost(config@.insert(CfgKey::Http1AllowObsoleteMultilineHeadersInResponses, CfgVal::Flag(val))),
                },
            )
        },
        None => {
            update_last_error(
                ch,
                HttpErrorKind::HttpHandleNull,
                String::from_str("client_builder handle is null"),
            );
            None
        },
    }
}

/// Set whether to use adaptive flow control.
pub fn client_builder_http2_adaptive_window(ch: &mut ErrorChannel, handle: Option<ClientBuilderHandle>, enable: bool) -> (r: Option<
    ClientBuilderHandle,
>)
    ensures
        handle is None ==> (r is None && holds_kind(*final(ch), HttpErrorKind::HttpHandleNull)),
        handle is Some ==> (*final(ch) == *old(ch) && r is Some && r->0@ == handle->0@.insert(
            CfgKey::Http2AdaptiveWindow,
            CfgVal::Flag(enable),
        )),
{
    match handle {
        Some(b) => {
            let ClientBuilderHandle { inner, config } = b;
            Some(
                ClientBuilderHandle {
                    inner: engine::cb_http2_adaptive_window(inner, enable),
                    config: Ghost(config@.insert(CfgKey::Http2AdaptiveWindow, CfgVal::Flag(enable))),
                },
            )
        },
        None => {
            update_last_error(
                ch,
                HttpErrorKind::HttpHandleNull,
                String::from_str("client_builder handle is null"),
            );
            None
        },
    }
}

/// Set whether sockets have the no-delay transport option enabled.
pub fn client_builder_tcp_nodelay(ch: &mut ErrorChannel, handle: Option<ClientBuilderHandle>, enable: bool) -> (r: Option<
    ClientBuilderHandle,
>)
    ensures
        handle is None ==> (r is None && holds_kind(*final(ch), HttpErrorKind::HttpHandleNull)),
        handle is Some ==> (*final(ch) == *old(ch) && r is Some && r->0@ == handle->0@.insert(
            CfgKey::TcpNodelay,
            CfgVal::Flag(enable),
        )),
{
    match handle {
        Some(b) => {
            let ClientBuilderHandle { inner, config } = b;
            Some(
                ClientBuilderHandle {
                    inner: engine::cb_tcp_nodelay(inner, enable),
                    config: Ghost(config@.insert(CfgKey::TcpNodelay, CfgVal::Flag(enable))),
                },
            )
        },
        None => {
            update_last_error(
                ch,
                HttpErrorKind::HttpHandleNull,
                String::from_str("client_builder handle is null"),
            );
            None
        },
    }
}

/// Control the use of the built-in system certificates during validation.
pub fn client_builder_tls_built_in_root_certs(ch: &mut ErrorChannel, handle: Option<ClientBuilderHandle>, tls_built_in_root_certs: bool) -> (r: Option<
    ClientBuilderHandle,
>)
    ensures
        handle is None ==> (r is None && holds_kind(*final(ch), HttpErrorKind::HttpHandleNull)),
        handle is Some ==> (*final(ch) == *old(ch) && r is Some && r->0@ == handle->0@.insert(
            CfgKey::TlsBuiltInRootCerts,
            CfgVal::Flag(tls_built_in_root_certs),
        )),
{
    match handle {
        Some(b) => {
            let ClientBuilderHandle { inner, config } = b;
            Some(
                ClientBuilderHandle {
                    inner: engine::cb_tls_built_in_root_certs(inner, tls_built_in_root_certs),
                    config: Ghost(config@.insert(CfgKey::TlsBuiltInRootCerts, CfgVal::Flag(tls_built_in_root_certs))),
                },
            )
        },
        None => {
            update_last_error(
                ch,
                HttpErrorKind::HttpHandleNull,
                String::from_str("client_builder handle is null"),
            );
            None
        },
    }
}

/// Control the use of certificate validation; trusting invalid certificates is a last resort.
pub fn client_builder_danger_accept_invalid_certs(ch: &mut ErrorChannel, handle: Option<ClientBuilderHandle>, accept_invalid_certs: bool) -> (r: Option<
    ClientBuilderHandle,
>)
    ensures
        handle is None ==> (r is None && holds_kind(*final(ch), HttpErrorKind::HttpHandleNull)),
        handle is Some ==> (*final(ch) == *old(ch) && r is Some && r->0@ == handle->0@.insert(
            CfgKey::DangerAcceptInvalidCerts,
            CfgVal::Flag(accept_invalid_certs),
        )),
{
    match handle {
        Some(b) => {
            let ClientBuilderHandle { inner, config } = b;
            Some(
                ClientBuilderHandle {
                    inner: engine::cb_danger_accept_invalid_certs(inner, accept_invalid_certs),
                    config: Ghost(config@.insert(CfgKey::DangerAcceptInvalidCerts, CfgVal::Flag(accept_invalid_certs))),
                },
            )
        },
        None => {
            update_last_error(
                ch,
                HttpErrorKind::HttpHandleNull,
                String::from_str("client_builder handle is null"),
            );
            None
        },
    }
}

/// Control the use of server-name indication during the secure handshake.
pub fn client_builder_tls_sni(ch: &mut ErrorChannel, handle: Option<ClientBuilderHandle>, tls_sni: bool) -> (r: Option<
    ClientBuilderHandle,
>)
    ensures
        handle is None ==> (r is None && holds_kind(*final(ch), HttpErrorKind::HttpHandleNull)),
        handle is Some ==> (*final(ch) == *old(ch) && r is Some && r->0@ == handle->0@.insert(
            CfgKey::TlsSni,
            CfgVal::Flag(tls_sni),
        )),
{
    match handle {
        Some(b) => {
            let ClientBuilderHandle { inner, config } = b;
            Some(
                ClientBuilderHandle {
                    inner: engine::cb_tls_sni(inner, tls_sni),
                    config: Ghost(config@.insert(CfgKey::TlsSni, CfgVal::Flag(tls_sni))),
                },
            )
        },
        None => {
            update_last_error(
                ch,
                HttpErrorKind::HttpHandleNull,
                String::from_str("client_builder handle is null"),
            );
            None
        },
    }
}

/// Enable or disable the alternative asynchronous resolver.
pub fn client_builder_hickory_dns(ch: &mut ErrorChannel, handle: Option<ClientBuilderHandle>, enable: bool) -> (r: Option<
    ClientBuilderHandle,
>)
    ensures
        handle is None ==> (r is None && holds_kind(*final(ch), HttpErrorKind::HttpHandleNull)),
        handle is Some ==> (*final(ch) == *old(ch) && r is Some && r->0@ == handle->0@.insert(
            CfgKey::HickoryDns,
            CfgVal::Flag(enable),
        )),
{
    match handle {
        Some(b) => {
            let ClientBuilderHandle { inner, config } = b;
            Some(
                ClientBuilderHandle {
                    inner: engine::cb_hickory_dns(inner, enable),
                    config: Ghost(config@.insert(CfgKey::HickoryDns, CfgVal::Flag(enable))),
                },
            )
        },
        None => {
            update_last_error(
                ch,
                HttpErrorKind::HttpHandleNull,
                String::from_str("client_builder handle is null"),
            );
            None
        },
    }
}

/// Restrict the client to secure requests only.
pub fn client_builder_https_only(ch: &mut ErrorChannel, handle: Option<ClientBuilderHandle>, enable: bool) -> (r: Option<
    ClientBuilderHandle,
>)
    ensures
        handle is None ==> (r is None && holds_kind(*final(ch), HttpErrorKind::HttpHandleNull)),
        handle is Some ==> (*final(ch) == *old(ch) && r is Some && r->0@ == handle->0@.insert(
            CfgKey::HttpsOnly,
            CfgVal::Flag(enable),
        )),
{
    match handle {
        Some(b) => {
            let ClientBuilderHandle { inner, config } = b;
            Some(
                ClientBuilderHandle {
                    inner: engine::cb_https_only(inner, enable),
                    config: Ghost(config@.insert(CfgKey::HttpsOnly, CfgVal::Flag(enable))),
                },
            )
        },
        None => {
            update_last_error(
                ch,
                HttpErrorKind::HttpHandleNull,
                String::from_str("client_builder handle is null"),
            );
            None
        },
    }
}

/// Render header names in title case on first-version connections.
pub fn client_builder_http1_title_case_headers(ch: &mut ErrorChannel, handle: Option<ClientBuilderHandle>) -> (r: Option<ClientBuilderHandle>)
    ensures
        handle is None ==> (r is None && holds_kind(*final(ch), HttpErrorKind::HttpHandleNull)),
        handle is Some ==> (*final(ch) == *old(ch) && r is Some && r->0@ == handle->0@.insert(
            CfgKey::Http1TitleCaseHeaders,
            CfgVal::Flag(true),
        )),
{
    match handle {
        Some(b) => {
            let ClientBuilderHandle { inner, config } = b;
            Some(
                ClientBuilderHandle {
                    inner: engine::cb_http1_title_case_headers(inner),
                    config: Ghost(config@.insert(CfgKey::Http1TitleCaseHeaders, CfgVal::Flag(true))),
                },
            )
        },
        None => {
            update_last_error(
                ch,
                HttpErrorKind::HttpHandleNull,
                String::from_str("client_builder handle is null"),
            );
            None
        },
    }
}

/// Pin the client to the first protocol version; shares its tunable with the prior-knowledge call, so the two do not commute.
pub fn client_builder_http1_only(ch: &mut ErrorChannel, handle: Option<ClientBuilderHandle>) -> (r: Option<ClientBuilderHandle>)
    ensures
        handle is None ==> (r is None && holds_kind(*final(ch), HttpErrorKind::HttpHandleNull)),
        handle is Some ==> (*final(ch) == *old(ch) && r is Some && r->0@ == handle->0@.insert(
            CfgKey::HttpVersionPref,
            CfgVal::Pref(VersionPref::Http1),
        )),
{
    match handle {
        Some(b) => {
            let ClientBuilderHandle { inner, config } = b;
            Some(
                ClientBuilderHandle {
                    inner: engine::cb_http1_only(inner),
                    config: Ghost(config@.insert(CfgKey::HttpVersionPref, CfgVal::Pref(VersionPref::Http1))),
                },
            )
        },
        None => {
            update_last_error(
                ch,
                HttpErrorKind::HttpHandleNull,
                String::from_str("client_builder handle is null"),
            );
            None
        },
    }
}

/// Allow responses in the ancient protocol version.
pub fn client_builder_http09_responses(ch: &mut ErrorChannel, handle: Option<ClientBuilderHandle>) -> (r: Option<ClientBuilderHandle>)
    ensures
        handle is None ==> (r is None && holds_kind(*final(ch), HttpErrorKind::HttpHandleNull)),
        handle is Some ==> (*final(ch) == *old(ch) && r is Some && r->0@ == handle->0@.insert(
            CfgKey::Http09Responses,
            CfgVal::Flag(true),
        )),
{
    match handle {
        Some(b) => {
            let ClientBuilderHandle { inner, config } = b;
            Some(
                ClientBuilderHandle {
                    inner: engine::cb_http09_responses(inner),
                    config: Ghost(config@.insert(CfgKey::Http09Responses, CfgVal::Flag(true))),
                },
            )
        },
        None => {
            update_last_error(
                ch,
                HttpErrorKind::HttpHandleNull,
                String::from_str("client_builder handle is null"),
            );
            None
        },
    }
}

/// Pin the client to the second protocol version; shares its tunable with the first-version call, so the two do not commute.
pub fn client_builder_http2_prior_knowledge(ch: &mut ErrorChannel, handle: Option<ClientBuilderHandle>) -> (r: Option<ClientBuilderHandle>)
    ensures
        handle is None ==> (r is None && holds_kind(*final(ch), HttpErrorKind::HttpHandleNull)),
        handle is Some ==> (*final(ch) == *old(ch) && r is Some && r->0@ == handle->0@.insert(
            CfgKey::HttpVersionPref,
            CfgVal::Pref(VersionPref::Http2),
        )),
{
    match handle {
        Some(b) => {
            let ClientBuilderHandle { inner, config } = b;
            Some(
                ClientBuilderHandle {
                    inner: engine::cb_http2_prior_knowledge(inner),
                    config: Ghost(config@.insert(CfgKey::HttpVersionPref, CfgVal::Pref(VersionPref::Http2))),
                },
            )
        },
        None => {
            update_last_error(
                ch,
                HttpErrorKind::HttpHandleNull,
                String::from_str("client_builder handle is null"),
            );
            None
        },
    }
}

/// Disable the alternative asynchronous resolver; the older name for the call below.
pub fn client_builder_no_trust_dns(ch: &mut ErrorChannel, handle: Option<ClientBuilderHandle>) -> (r: Option<ClientBuilderHandle>)
    ensures
        handle is None ==> (r is None && holds_kind(*final(ch), HttpErrorKind::HttpHandleNull)),
        handle is Some ==> (*final(ch) == *old(ch) && r is Some && r->0@ == handle->0@.insert(
            CfgKey::HickoryDns,
            CfgVal::Flag(false),
        )),
{
    match handle {
        Some(b) => {
            let ClientBuilderHandle { inner, config } = b;
            Some(
                ClientBuilderHandle {
                    inner: engine::cb_no_hickory_dns(inner),
                    config: Ghost(config@.insert(CfgKey::HickoryDns, CfgVal::Flag(false))),
                },
            )
        },
        None => {
            update_last_error(
                ch,
                HttpErrorKind::HttpHandleNull,
                String::from_str("client_builder handle is null"),
            );
            None
        },
    }
}

/// Disable the alternative asynchronous resolver.
pub fn client_builder_no_hickory_dns(ch: &mut ErrorChannel, handle: Option<ClientBuilderHandle>) -> (r: Option<ClientBuilderHandle>)
    ensures
        handle is None ==> (r is None && holds_kind(*final(ch), HttpErrorKind::HttpHandleNull)),
        handle is Some ==> (*final(ch) == *old(ch) && r is Some && r->0@ == handle->0@.insert(
            CfgKey::HickoryDns,
            CfgVal::Flag(false),
        )),
{
    match handle {
        Some(b) => {
            let ClientBuilderHandle { inner, config } = b;
            Some(
                ClientBuilderHandle {
                    inner: engine::cb_no_hickory_dns(inner),
                    config: Ghost(config@.insert(CfgKey::HickoryDns, CfgVal::Flag(false))),
                },
            )
        },
        None => {
            update_last_error(
                ch,
                HttpErrorKind::HttpHandleNull,
                String::from_str("client_builder handle is null"),
            );
            None
        },
    }
}

/// Pin the secure-transport backend to the memory-safe implementation; shares its tunable with the platform-backend call.
pub fn client_builder_use_rustls(ch: &mut ErrorChannel, handle: Option<ClientBuilderHandle>) -> (r: Option<ClientBuilderHandle>)
    ensures
        handle is None ==> (r is None && holds_kind(*final(ch), HttpErrorKind::HttpHandleNull)),
        handle is Some ==> (*final(ch) == *old(ch) && r is Some && r->0@ == handle->0@.insert(
            CfgKey::TlsBackend,
            CfgVal::Backend(TlsBackendChoice::Rustls),
        )),
{
    match handle {
        Some(b) => {
            let ClientBuilderHandle { inner, config } = b;
            Some(
                ClientBuilderHandle {
                    inner: engine::cb_use_rustls_tls(inner),
                    config: Ghost(config@.insert(CfgKey::TlsBackend, CfgVal::Backend(TlsBackendChoice::Rustls))),
                },
            )
        },
        None => {
            update_last_error(
                ch,
                HttpErrorKind::HttpHandleNull,
                String::from_str("client_builder handle is null"),
            );
            None
        },
    }
}

/// Pin the secure-transport backend to the platform implementation; shares its tunable with the memory-safe-backend call.
pub fn client_builder_use_native_tls(ch: &mut ErrorChannel, handle: Option<ClientBuilderHandle>) -> (r: Option<ClientBuilderHandle>)
    ensures
        handle is None ==> (r is None && holds_kind(*final(ch), HttpErrorKind::HttpHandleNull)),
        handle is Some ==> (*final(ch) == *old(ch) && r is Some && r->0@ == handle->0@.insert(
            CfgKey::TlsBackend,
            CfgVal::Backend(TlsBackendChoice::NativeTls),
        )),
{
    match handle {
        Some(b) => {
            let ClientBuilderHandle { inner, config } = b;
            Some(
                ClientBuilderHandle {
                    inner: engine::cb_use_native_tls(inner),
                    config: Ghost(config@.insert(CfgKey::TlsBackend, CfgVal::Backend(TlsBackendChoice::NativeTls))),
                },
            )
        },
        None => {
            update_last_error(
                ch,
                HttpErrorKind::HttpHandleNull,
                String::from_str("client_builder handle is null"),
            );
            None
        },
    }
}

/// Set one budget for connecting, reading and writing. An absent number of milliseconds disables the setting.
pub fn client_builder_timeout(ch: &mut ErrorChannel, handle: Option<ClientBuilderHandle>, millisecond: Option<u64>) -> (r:
    Option<ClientBuilderHandle>)
    ensures
        handle is None ==> (r is None && holds_kind(*final(ch), HttpErrorKind::HttpHandleNull)),
        handle is Some ==> (*final(ch) == *old(ch) && r is Some && r->0@ == handle->0@.insert(
            CfgKey::Timeout,
            opt_millis_val(millisecond),
        )),
{
    match handle {
        Some(b) => {
            let ClientBuilderHandle { inner, config } = b;
            let duration = crate::text::u64_to_millis_duration(millisecond);
            Some(
                ClientBuilderHandle {
                    inner: engine::cb_timeout(inner, duration),
                    config: Ghost(config@.insert(CfgKey::Timeout, opt_millis_val(millisecond))),
                },
            )
        },
        None => {
            update_last_error(
                ch,
                HttpErrorKind::HttpHandleNull,
                String::from_str("client_builder handle is null"),
            );
            None
        },
    }
}

/// Set a budget for connecting alone. An absent number of milliseconds disables the setting.
pub fn client_builder_connect_timeout(ch: &mut ErrorChannel, handle: Option<ClientBuilderHandle>, millisecond: Option<u64>) -> (r:
    Option<ClientBuilderHandle>)
    ensures
        handle is None ==> (r is None && holds_kind(*final(ch), HttpErrorKind::HttpHandleNull)),
        handle is Some ==> (*final(ch) == *old(ch) && r is Some && r->0@ == handle->0@.insert(
            CfgKey::ConnectTimeout,
            opt_millis_val(millisecond),
        )),
{
    match handle {
        Some(b) => {
            let ClientBuilderHandle { inner, config } = b;
            let duration = crate::text::u64_to_millis_duration(millisecond);
            Some(
                ClientBuilderHandle {
                    inner: engine::cb_connect_timeout(inner, duration),
                    config: Ghost(config@.insert(CfgKey::ConnectTimeout, opt_millis_val(millisecond))),
                },
            )
        },
        None => {
            update_last_error(
                ch,
                HttpErrorKind::HttpHandleNull,
                String::from_str("client_builder handle is null"),
            );
            None
        },
    }
}

/// Set how long idle connections are kept alive in the pool. An absent number of milliseconds disables the setting.
pub fn client_builder_pool_idle_timeout(ch: &mut ErrorChannel, handle: Option<ClientBuilderHandle>, millisecond: Option<u64>) -> (r:
    Option<ClientBuilderHandle>)
    ensures
        handle is None ==> (r is None && holds_kind(*final(ch), HttpErrorKind::HttpHandleNull)),
        handle is Some ==> (*final(ch) == *old(ch) && r is Some && r->0@ == handle->0@.insert(
            CfgKey::PoolIdleTimeout,
            opt_millis_val(millisecond),
        )),
{
    match handle {
        Some(b) => {
            let ClientBuilderHandle { inner, config } = b;
            let duration = crate::text::u64_to_millis_duration(millisecond);
            Some(
                ClientBuilderHandle {
                    inner: engine::cb_pool_idle_timeout(inner, duration),
                    config: Ghost(config@.insert(CfgKey::PoolIdleTimeout, opt_millis_val(millisecond))),
                },
            )
        },
        None => {
            update_last_error(
                ch,
                HttpErrorKind::HttpHandleNull,
                String::from_str("client_builder handle is null"),
            );
            None
        },
    }
}

/// Set the keep-alive probe interval for all sockets. An absent number of milliseconds disables the setting.
pub fn client_builder_tcp_keepalive(ch: &mut ErrorChannel, handle: Option<ClientBuilderHandle>, millisecond: Option<u64>) -> (r:
    Option<ClientBuilderHandle>)
    ensures
        handle is None ==> (r is None && holds_kind(*final(ch), HttpErrorKind::HttpHandleNull)),
        handle is Some ==> (*final(ch) == *old(ch) && r is Some && r->0@ == handle->0@.insert(
            CfgKey::TcpKeepalive,
            opt_millis_val(millisecond),
        )),
{
    match handle {
        Some(b) => {
            let ClientBuilderHandle { inner, config } = b;
            let duration = crate::text::u64_to_millis_duration(millisecond);
            Some(
                ClientBuilderHandle {
                    inner: engine::cb_tcp_keepalive(inner, duration),
                    config: Ghost(config@.insert(CfgKey::TcpKeepalive, opt_millis_val(millisecond))),
                },
            )
        },
        None => {
            update_last_error(
                ch,
                HttpErrorKind::HttpHandleNull,
                String::from_str("client_builder handle is null"),
            );
            None
        },
    }
}

/// Set the initial per-stream flow-control window for the second protocol version.
pub fn client_builder_http2_initial_stream_window_size(ch: &mut ErrorChannel, handle: Option<ClientBuilderHandle>, size: Option<u32>) -> (r: Option<
    ClientBuilderHandle,
>)
    ensures
        handle is None ==> (r is None && holds_kind(*final(ch), HttpErrorKind::HttpHandleNull)),
        handle is Some ==> (*final(ch) == *old(ch) && r is Some && r->0@ == handle->0@.insert(
            CfgKey::Http2InitialStreamWindowSize,
            opt_size_val(size),
        )),
{
    match handle {
        Some(b) => {
            let ClientBuilderHandle { inner, config } = b;
            Some(
                ClientBuilderHandle {
                    inner: engine::cb_http2_initial_stream_window_size(inner, size),
                    config: Ghost(config@.insert(CfgKey::Http2InitialStreamWindowSize, opt_size_val(size))),
                },
            )
        },
        None => {
            update_last_error(
                ch,
                HttpErrorKind::HttpHandleNull,
                String::from_str("client_builder handle is null"),
            );
            None
        },
    }
}

/// Set the connection-level flow-control window for the second protocol version.
pub fn client_builder_http2_initial_connection_window_size(ch: &mut ErrorChannel, handle: Option<ClientBuilderHandle>, size: Option<u32>) -> (r: Option<
    ClientBuilderHandle,
>)
    ensures
        handle is None ==> (r is None && holds_kind(*final(ch), HttpErrorKind::HttpHandleNull)),
        handle is Some ==> (*final(ch) == *old(ch) && r is Some && r->0@ == handle->0@.insert(
            CfgKey::Http2InitialConnectionWindowSize,
            opt_size_val(size),
        )),
{
    match handle {
        Some(b) => {
            let ClientBuilderHandle { inner, config } = b;
            Some(
                ClientBuilderHandle {
                    inner: engine::cb_http2_initial_connection_window_size(inner, size),
                    config: Ghost(config@.insert(CfgKey::Http2InitialConnectionWindowSize, opt_size_val(size))),
                },
            )
        },
        None => {
            update_last_error(
                ch,
                HttpErrorKind::HttpHandleNull,
                String::from_str("client_builder handle is null"),
            );
            None
        },
    }
}

/// Set the largest frame payload for the second protocol version.
pub fn client_builder_http2_max_frame_size(ch: &mut ErrorChannel, handle: Option<ClientBuilderHandle>, size: Option<u32>) -> (r: Option<
    ClientBuilderHandle,
>)
    ensures
        handle is None ==> (r is None && holds_kind(*final(ch), HttpErrorKind::HttpHandleNull)),
        handle is Some ==> (*final(ch) == *old(ch) && r is Some && r->0@ == handle->0@.insert(
            CfgKey::Http2MaxFrameSize,
            opt_size_val(size),
        )),
{
    match handle {
        Some(b) => {
            let ClientBuilderHandle { inner, config } = b;
            Some(
                ClientBuilderHandle {
                    inner: engine::cb_http2_max_frame_size(inner, size),
                    config: Ghost(config@.insert(CfgKey::Http2MaxFrameSize, opt_size_val(size))),
                },
            )
        },
        None => {
            update_last_error(
                ch,
                HttpErrorKind::HttpHandleNull,
                String::from_str("client_builder handle is null"),
            );
            None
        },
    }
}

/// Set the default headers for every request, consuming the header map
/// handle; a null header map is a null-handle failure like a null builder,
/// and the builder is released with it.
pub fn client_builder_default_headers(
    ch: &mut ErrorChannel,
    handle: Option<ClientBuilderHandle>,
    header_map: Option<reqwest::header::HeaderMap>,
) -> (r: Option<ClientBuilderHandle>)
    ensures
        (handle is None || header_map is None) ==> (r is None && holds_kind(
            *final(ch),
            HttpErrorKind::HttpHandleNull,
        )),
        (handle is Some && header_map is Some) ==> (*final(ch) == *old(ch) && r is Some && r->0@
            == handle->0@.insert(CfgKey::DefaultHeaders, CfgVal::Headers(hm_view(header_map->0)))),
{
    match (handle, header_map) {
        (Some(b), Some(m)) => {
            let ClientBuilderHandle { inner, config } = b;
            let ghost entries = hm_view(m);
            Some(
                ClientBuilderHandle {
                    inner: engine::cb_default_headers(inner, m),
                    config: Ghost(
                        config@.insert(CfgKey::DefaultHeaders, CfgVal::Headers(entries)),
                    ),
                },
            )
        },
        _ => {
            update_last_error(
                ch,
                HttpErrorKind::HttpHandleNull,
                String::from_str("client_builder handle or header_map is null"),
            );
            None
        },
    }
}

/// Set the user-agent header used by the client. A null or malformed value
/// releases the builder and returns the null handle, recording only the
/// malformed case.
pub fn client_builder_user_agent(
    ch: &mut ErrorChannel,
    handle: Option<ClientBuilderHandle>,
    value: &TextArg,
) -> (r: Option<ClientBuilderHandle>)
    ensures
        handle is None ==> (r is None && holds_kind(*final(ch), HttpErrorKind::HttpHandleNull)),
        (handle is Some && value is Null) ==> (r is None && *final(ch) == *old(ch)),
        (handle is Some && value is Malformed) ==> (r is None && holds_kind(
            *final(ch),
            HttpErrorKind::CharConversion,
        )),
        (handle is Some && value is Text) ==> (*final(ch) == *old(ch) && r is Some && r->0@
            == handle->0@.insert(CfgKey::UserAgent, CfgVal::Text(value->0@))),
{
    let b = match handle {
        Some(b) => b,
        None => {
            update_last_error(
                ch,
                HttpErrorKind::HttpHandleNull,
                String::from_str("client_builder handle is null"),
            );
            return None;
        },
    };
    let v = match to_rust_str(ch, value, "user agent parse error") {
        Some(v) => v,
        None => {
            return None;
        },
    };
    let ClientBuilderHandle { inner, config } = b;
    Some(
        ClientBuilderHandle {
            inner: engine::cb_user_agent(inner, v.as_str()),
            config: Ghost(config@.insert(CfgKey::UserAgent, CfgVal::Text(v@))),
        },
    )
}

/// Limit how many redirects the client follows.
pub fn client_builder_redirect(
    ch: &mut ErrorChannel,
    handle: Option<ClientBuilderHandle>,
    policy: usize,
) -> (r: Option<ClientBuilderHandle>)
    ensures
        handle is None ==> (r is None && holds_kind(*final(ch), HttpErrorKind::HttpHandleNull)),
        handle is Some ==> (*final(ch) == *old(ch) && r is Some && r->0@ == handle->0@.insert(
            CfgKey::RedirectLimit,
            CfgVal::Count(policy as int),
        )),
{
    match handle {
        Some(b) => {
            let ClientBuilderHandle { inner, config } = b;
            Some(
                ClientBuilderHandle {
                    inner: engine::cb_redirect_limited(inner, policy),
                    config: Ghost(
                        config@.insert(CfgKey::RedirectLimit, CfgVal::Count(policy as int)),
                    ),
                },
            )
        },
        None => {
            update_last_error(
                ch,
                HttpErrorKind::HttpHandleNull,
                String::from_str("client_builder handle is null"),
            );
            None
        },
    }
}

/// Add a proxy to the list the client will use, consuming the proxy handle;
/// a null proxy is a null-handle failure like a null builder.
pub fn client_builder_proxy(
    ch: &mut ErrorChannel,
    handle: Option<ClientBuilderHandle>,
    proxy: Option<ProxyHandle>,
) -> (r: Option<ClientBuilderHandle>)
    ensures
        (handle is None || proxy is None) ==> (r is None && holds_kind(
            *final(ch),
            HttpErrorKind::HttpHandleNull,
        )),
        (handle is Some && proxy is Some) ==> (*final(ch) == *old(ch) && r is Some && r->0@
            == with_proxy(handle->0@, proxy->0@)),
{
    match (handle, proxy) {
        (Some(b), Some(p)) => {
            let ClientBuilderHandle { inner, config } = b;
            let ghost scheme = p@;
            Some(
                ClientBuilderHandle {
                    inner: engine::cb_proxy(inner, p.into_engine()),
                    config: Ghost(with_proxy(config@, scheme)),
                },
            )
        },
        _ => {
            update_last_error(
                ch,
                HttpErrorKind::HttpHandleNull,
                String::from_str("client_builder handle or proxy is null"),
            );
            None
        },
    }
}

/// Cap the idle connections kept per host in the pool.
pub fn client_builder_pool_max_idle_per_host(
    ch: &mut ErrorChannel,
    handle: Option<ClientBuilderHandle>,
    max: usize,
) -> (r: Option<ClientBuilderHandle>)
    ensures
        handle is None ==> (r is None && holds_kind(*final(ch), HttpErrorKind::HttpHandleNull)),
        handle is Some ==> (*final(ch) == *old(ch) && r is Some && r->0@ == handle->0@.insert(
            CfgKey::PoolMaxIdlePerHost,
            CfgVal::Count(max as int),
        )),
{
    match handle {
        Some(b) => {
            let ClientBuilderHandle { inner, config } = b;
            Some(
                ClientBuilderHandle {
                    inner: engine::cb_pool_max_idle_per_host(inner, max),
                    config: Ghost(
                        config@.insert(CfgKey::PoolMaxIdlePerHost, CfgVal::Count(max as int)),
                    ),
                },
            )
        },
        None => {
            update_last_error(
                ch,
                HttpErrorKind::HttpHandleNull,
                String::from_str("client_builder handle is null"),
            );
            None
        },
    }
}

/// Bind the client to a local address. The text must be a numeric host
/// address; anything else releases the builder and records the failure.
pub fn client_builder_local_address(
    ch: &mut ErrorChannel,
    handle: Option<ClientBuilderHandle>,
    local_address: &TextArg,
) -> (r: Option<ClientBuilderHandle>)
    ensures
        handle is None ==> (r is None && holds_kind(*final(ch), HttpErrorKind::HttpHandleNull)),
        (handle is Some && local_address is Null) ==> (r is None && *final(ch) == *old(ch)),
        (handle is Some && local_address is Malformed) ==> (r is None && holds_kind(
            *final(ch),
            HttpErrorKind::CharConversion,
        )),
        (handle is Some && local_address is Text && !engine::is_ip_addr(local_address->0@)) ==> (
        r is None && holds_kind(*final(ch), HttpErrorKind::Other)),
        (handle is Some && local_address is Text && engine::is_ip_addr(local_address->0@)) ==> (
        *final(ch) == *old(ch) && r is Some && r->0@ == handle->0@.insert(
            CfgKey::LocalAddress,
            CfgVal::Text(local_address->0@),
        )),
{
    let b = match handle {
        Some(b) => b,
        None => {
            update_last_error(
                ch,
                HttpErrorKind::HttpHandleNull,
                String::from_str("client_builder handle is null"),
            );
            return None;
        },
    };
    let v = match to_rust_str(ch, local_address, "arg is local_address") {
        Some(v) => v,
        None => {
            return None;
        },
    };
    let ClientBuilderHandle { inner, config } = b;
    match engine::cb_local_address(inner, v.as_str()) {
        Ok(next) => Some(
            ClientBuilderHandle {
                inner: next,
                config: Ghost(config@.insert(CfgKey::LocalAddress, CfgVal::Text(v@))),
            },
        ),
        Err(()) => {
            update_last_error(ch, HttpErrorKind::Other, String::from_str("ip illegality"));
            None
        },
    }
}

/// Add a custom root certificate from its binary encoding; this does not
/// replace the existing trusted store. The new handle exists exactly when
/// the transport-security backend's parser accepts the bytes; refused
/// bytes release the builder and record the catch-all kind.
pub fn client_builder_add_root_certificate(
    ch: &mut ErrorChannel,
    handle: Option<ClientBuilderHandle>,
    der: &Vec<u8>,
) -> (r: Option<ClientBuilderHandle>)
    ensures
        handle is None ==> (r is None && holds_kind(*final(ch), HttpErrorKind::HttpHandleNull)),
        (handle is Some && engine::is_der_certificate(der@)) ==> (r is Some && *final(ch) == *old(
            ch,
        ) && r->0@ == with_cert(handle->0@, der@)),
        (handle is Some && !engine::is_der_certificate(der@)) ==> (r is None && holds_kind(
            *final(ch),
            HttpErrorKind::Other,
        )),
{
    let b = match handle {
        Some(b) => b,
        None => {
            update_last_error(
                ch,
                HttpErrorKind::HttpHandleNull,
                String::from_str("client_builder handle is null"),
            );
            return None;
        },
    };
    let cert = match engine::cert_from_der(der) {
        Ok(c) => c,
        Err(e) => {
            update_last_error(ch, HttpErrorKind::Other, engine::err_message(&e));
            return None;
        },
    };
    let ClientBuilderHandle { inner, config } = b;
    Some(
        ClientBuilderHandle {
            inner: engine::cb_add_root_certificate(inner, cert),
            config: Ghost(with_cert(config@, der@)),
        },
    )
}

/// The transport-security version a version text names, if any.
pub open spec fn tls_version_of(s: Seq<char>) -> Option<TlsVersion> {
    if s == "1.0"@ {
        Some(TlsVersion::V1_0)
    } else if s == "1.1"@ {
        Some(TlsVersion::V1_1)
    } else if s == "1.2"@ {
        Some(TlsVersion::V1_2)
    } else if s == "1.3"@ {
        Some(TlsVersion::V1_3)
    } else {
        None
    }
}

/// Parse a version text into the transport-security version it names.
fn parse_tls_version(s: &String) -> (r: Option<TlsVersion>)
    ensures
        r == tls_version_of(s@),
{
    if s.eq(&String::from_str("1.0")) {
        Some(TlsVersion::V1_0)
    } else if s.eq(&String::from_str("1.1")) {
        Some(TlsVersion::V1_1)
    } else if s.eq(&String::from_str("1.2")) {
        Some(TlsVersion::V1_2)
    } else if s.eq(&String::from_str("1.3")) {
        Some(TlsVersion::V1_3)
    } else {
        None
    }
}

/// Set the lowest transport-security version accepted for connections. A
/// version text the boundary does not know releases the builder and records
/// the failure.
pub fn client_builder_min_tls_version(
    ch: &mut ErrorChannel,
    handle: Option<ClientBuilderHandle>,
    version: &TextArg,
) -> (r: Option<ClientBuilderHandle>)
    ensures
        handle is None ==> (r is None && holds_kind(*final(ch), HttpErrorKind::HttpHandleNull)),
        (handle is Some && version is Null) ==> (r is None && holds_kind(
            *final(ch),
            HttpErrorKind::Other,
        )),
        (handle is Some && version is Malformed) ==> (r is None && holds_kind(
            *final(ch),
            HttpErrorKind::CharConversion,
        )),
        (handle is Some && version is Text && tls_version_of(version->0@) is None) ==> (r is None
            && holds_kind(*final(ch), HttpErrorKind::Other)),
        (handle is Some && version is Text && tls_version_of(version->0@) is Some) ==> (*final(ch)
            == *old(ch) && r is Some && r->0@ == handle->0@.insert(
            CfgKey::MinTlsVersion,
            CfgVal::Tls(tls_version_of(version->0@)->0),
        )),
{
    let b = match handle {
        Some(b) => b,
        None => {
            update_last_error(
                ch,
                HttpErrorKind::HttpHandleNull,
                String::from_str("client_builder handle is null"),
            );
            return None;
        },
    };
    let v = match version {
        TextArg::Null => {
            update_last_error(
                ch,
                HttpErrorKind::Other,
                String::from_str("version is null when use min_tls_version"),
            );
            return None;
        },
        _ => match to_rust_str(ch, version, "version to str failed") {
            Some(v) => v,
            None => {
                return None;
            },
        },
    };
    let parsed = match parse_tls_version(v) {
        Some(p) => p,
        None => {
            update_last_error(
                ch,
                HttpErrorKind::Other,
                String::from_str("unknown tls version"),
            );
            return None;
        },
    };
    let ClientBuilderHandle { inner, config } = b;
    Some(
        ClientBuilderHandle {
            inner: engine::cb_min_tls_version(inner, &parsed),
            config: Ghost(config@.insert(CfgKey::MinTlsVersion, CfgVal::Tls(parsed))),
        },
    )
}

/// Set the highest transport-security version accepted for connections,
/// with the argument discipline of the lowest-version call.
pub fn client_builder_max_tls_version(
    ch: &mut ErrorChannel,
    handle: Option<ClientBuilderHandle>,
    version: &TextArg,
) -> (r: Option<ClientBuilderHandle>)
    ensures
        handle is None ==> (r is None && holds_kind(*final(ch), HttpErrorKind::HttpHandleNull)),
        (handle is Some && version is Null) ==> (r is None && holds_kind(
            *final(ch),
            HttpErrorKind::Other,
        )),
        (handle is Some && version is Malformed) ==> (r is None && holds_kind(
            *final(ch),
            HttpErrorKind::CharConversion,
        )),
        (handle is Some && version is Text && tls_version_of(version->0@) is None) ==> (r is None
            && holds_kind(*final(ch), HttpErrorKind::Other)),
        (handle is Some && version is Text && tls_version_of(version->0@) is Some) ==> (*final(ch)
            == *old(ch) && r is Some && r->0@ == handle->0@.insert(
            CfgKey::MaxTlsVersion,
            CfgVal::Tls(tls_version_of(version->0@)->0),
        )),
{
    let b = match handle {
        Some(b) => b,
        None => {
            update_last_error(
                ch,
                HttpErrorKind::HttpHandleNull,
                String::from_str("client_builder handle is null"),
            );
            return None;
        },
    };
    let v = match version {
        TextArg::Null => {
            update_last_error(
                ch,
                HttpErrorKind::Other,
                String::from_str("version is null when use max_tls_version"),
            );
            return None;
        },
        _ => match to_rust_str(ch, version, "version to str failed") {
            Some(v) => v,
            None => {
                return None;
            },
        },
    };
    let parsed = match parse_tls_version(v) {
        Some(p) => p,
        None => {
            update_last_error(
                ch,
                HttpErrorKind::Other,
                String::from_str("unknown tls version"),
            );
            return None;
        },
    };
    let ClientBuilderHandle { inner, config } = b;
    Some(
        ClientBuilderHandle {
            inner: engine::cb_max_tls_version(inner, &parsed),
            config: Ghost(config@.insert(CfgKey::MaxTlsVersion, CfgVal::Tls(parsed))),
        },
    )
}

/// Route one domain to one numeric address with a port, bypassing name
/// resolution. A text that is not such an address releases the builder and
/// records the failure.
pub fn client_builder_resolve(
    ch: &mut ErrorChannel,
    handle: Option<ClientBuilderHandle>,
    domain: &TextArg,
    socket_addr: &TextArg,
) -> (r: Option<ClientBuilderHandle>)
    ensures
        handle is None ==> (r is None && holds_kind(*final(ch), HttpErrorKind::HttpHandleNull)),
        (handle is Some && domain is Null) ==> (r is None && *final(ch) == *old(ch)),
        (handle is Some && domain is Malformed) ==> (r is None && holds_kind(
            *final(ch),
            HttpErrorKind::CharConversion,
        )),
        (handle is Some && domain is Text && socket_addr is Null) ==> (r is None && *final(ch)
            == *old(ch)),
        (handle is Some && domain is Text && socket_addr is Malformed) ==> (r is None
            && holds_kind(*final(ch), HttpErrorKind::CharConversion)),
        (handle is Some && domain is Text && socket_addr is Text && !engine::is_socket_addr(
            socket_addr->0@,
        )) ==> (r is None && holds_kind(*final(ch), HttpErrorKind::Other)),
        (handle is Some && domain is Text && socket_addr is Text && engine::is_socket_addr(
            socket_addr->0@,
        )) ==> (*final(ch) == *old(ch) && r is Some && r->0@ == with_dns(
            handle->0@,
            domain->0@,
            seq![socket_addr->0@],
        )),
{
    let b = match handle {
        Some(b) => b,
        None => {
            update_last_error(
                ch,
                HttpErrorKind::HttpHandleNull,
                String::from_str("client builder handle is null when use resolve"),
            );
            return None;
        },
    };
    let d = match to_rust_str(ch, domain, "domain to str failed") {
        Some(v) => v,
        None => {
            return None;
        },
    };
    let a = match to_rust_str(ch, socket_addr, "socket_addr to str failed") {
        Some(v) => v,
        None => {
            return None;
        },
    };
    let ClientBuilderHandle { inner, config } = b;
    match engine::cb_resolve(inner, d.as_str(), a.as_str()) {
        Ok(next) => Some(
            ClientBuilderHandle {
                inner: next,
                config: Ghost(with_dns(config@, d@, seq![a@])),
            },
        ),
        Err(()) => {
            update_last_error(ch, HttpErrorKind::Other, String::from_str("socket addr parse fail"));
            None
        },
    }
}

/// Route one domain to a list of numeric addresses with ports. The whole
/// list must parse; the first text that does not releases the builder and
/// records the failure.
pub fn client_builder_resolve_to_addrs(
    ch: &mut ErrorChannel,
    handle: Option<ClientBuilderHandle>,
    domain: &TextArg,
    socket_addrs: &Vec<String>,
) -> (r: Option<ClientBuilderHandle>)
    ensures
        handle is None ==> (r is None && holds_kind(*final(ch), HttpErrorKind::HttpHandleNull)),
        (handle is Some && domain is Null) ==> (r is None && *final(ch) == *old(ch)),
        (handle is Some && domain is Malformed) ==> (r is None && holds_kind(
            *final(ch),
            HttpErrorKind::CharConversion,
        )),
        (handle is Some && domain is Text && !(forall|i: int|
            0 <= i < socket_addrs@.len() ==> engine::is_socket_addr(
                (#[trigger] socket_addrs@[i])@,
            ))) ==> (r is None && holds_kind(*final(ch), HttpErrorKind::Other)),
        (handle is Some && domain is Text && (forall|i: int|
            0 <= i < socket_addrs@.len() ==> engine::is_socket_addr(
                (#[trigger] socket_addrs@[i])@,
            ))) ==> (*final(ch) == *old(ch) && r is Some && r->0@ == with_dns(
            handle->0@,
            domain->0@,
            socket_addrs@.map_values(|a: String| a@),
        )),
{
    let b = match handle {
        Some(b) => b,
        None => {
            update_last_error(
                ch,
                HttpErrorKind::HttpHandleNull,
                String::from_str("client builder handle is null when use resolve"),
            );
            return None;
        },
    };
    let d = match to_rust_str(ch, domain, "domain to str failed") {
        Some(v) => v,
        None => {
            return None;
        },
    };
    let ClientBuilderHandle { inner, config } = b;
    match engine::cb_resolve_to_addrs(inner, d.as_str(), socket_addrs) {
        Ok(next) => Some(
            ClientBuilderHandle {
                inner: next,
                config: Ghost(
                    with_dns(config@, d@, socket_addrs@.map_values(|a: String| a@)),
                ),
            },
        ),
        Err(_) => {
            update_last_error(ch, HttpErrorKind::Other, String::from_str("socket addr parse fail"));
            None
        },
    }
}

/// Build the configured client, consuming the builder. The engine decides
/// whether its transport stack can be initialized; its refusal records the
/// catch-all kind and returns the null handle.
pub fn client_builder_build_client(
    ch: &mut ErrorChannel,
    handle: Option<ClientBuilderHandle>,
) -> (r: Option<reqwest::blocking::Client>)
    ensures
        handle is None ==> (r is None && holds_kind(*final(ch), HttpErrorKind::HttpHandleNull)),
        (handle is Some && r is Some) ==> *final(ch) == *old(ch),
        (handle is Some && r is None) ==> holds_kind(*final(ch), HttpErrorKind::Other),
{
    let b = match handle {
        Some(b) => b,
        None => {
            update_last_error(
                ch,
                HttpErrorKind::HttpHandleNull,
                String::from_str("client builder handle is null when use client_builder_build_client"),
            );
            return None;
        },
    };
    let ClientBuilderHandle { inner, config } = b;
    match engine::cb_build(inner) {
        Ok(c) => Some(c),
        Err(e) => {
            let mut msg = String::from_str("Unable to build client: ");
            msg.append(engine::err_message(&e).as_str());
            update_last_error(ch, HttpErrorKind::Other, msg);
            None
        },
    }
}

/// Law: two configuration calls that write different tunables can be made
/// in either order — the accumulated configuration is the same map. Calls
/// that share a tunable (the two protocol-version pins, the two backend
/// pins, repeated writes of one setting) are exactly those excluded.
pub proof fn lemma_config_calls_commute(
    m: Map<CfgKey, CfgVal>,
    k1: CfgKey,
    v1: CfgVal,
    k2: CfgKey,
    v2: CfgVal,
)
    requires
        k1 != k2,
    ensures
        m.insert(k1, v1).insert(k2, v2) == m.insert(k2, v2).insert(k1, v1),
{
    assert(m.insert(k1, v1).insert(k2, v2) =~= m.insert(k2, v2).insert(k1, v1));
}

/// Law: adding a proxy commutes with any configuration call that writes a
/// different tunable.
pub proof fn lemma_proxy_commutes(m: Map<CfgKey, CfgVal>, scheme: Seq<char>, k: CfgKey, v: CfgVal)
    requires
        k != CfgKey::Proxies,
    ensures
        with_proxy(m, scheme).insert(k, v) == with_proxy(m.insert(k, v), scheme),
{
    assert(cfg_proxies(m.insert(k, v)) == cfg_proxies(m));
    assert(with_proxy(m, scheme).insert(k, v) =~= with_proxy(m.insert(k, v), scheme));
}

/// Law: adding a root certificate commutes with any configuration call that
/// writes a different tunable.
pub proof fn lemma_cert_commutes(m: Map<CfgKey, CfgVal>, der: Seq<u8>, k: CfgKey, v: CfgVal)
    requires
        k != CfgKey::RootCertificates,
    ensures
        with_cert(m, der).insert(k, v) == with_cert(m.insert(k, v), der),
{
    assert(cfg_certs(m.insert(k, v)) == cfg_certs(m));
    assert(with_cert(m, der).insert(k, v) =~= with_cert(m.insert(k, v), der));
}

/// Law: overriding one domain's resolution commutes with any configuration
/// call that writes a different tunable.
pub proof fn lemma_dns_commutes(
    m: Map<CfgKey, CfgVal>,
    domain: Seq<char>,
    addrs: Seq<Seq<char>>,
    k: CfgKey,
    v: CfgVal,
)
    requires
        k != CfgKey::DnsOverrides,
    ensures
        with_dns(m, domain, addrs).insert(k, v) == with_dns(m.insert(k, v), domain, addrs),
{
    assert(cfg_dns(m.insert(k, v)) == cfg_dns(m));
    assert(with_dns(m, domain, addrs).insert(k, v) =~= with_dns(m.insert(k, v), domain, addrs));
}

} // verus!

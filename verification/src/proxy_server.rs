//! Proxy server connection handling and upstream proxy configuration.

use vstd::prelude::*;
use crate::headers::Headers;
use crate::net::SocketAddr;
use crate::text::IntoText;

verus! {

/// Context passed to a connect handler when a client connects to the powhttp proxy server.
#[derive(Debug, Clone, PartialEq, Eq)]
pub struct ConnectContext {
    pub session_id: ulid::Ulid,
    pub target_addr: TargetAddress,
    pub client_addr: SocketAddr,
    pub process: Option<ProcessInfo>,
    pub request: ConnectRequest,
}

/// A host–port pair identifying the target server.
#[derive(Debug, Clone, PartialEq, Eq, Hash)]
pub struct TargetAddress {
    pub host: String,
    pub port: u16,
}

impl TargetAddress {
    /// Creates the address of `host` at `port`.
    pub fn new<H: IntoText>(host: H, port: u16) -> (r: Self)
        ensures
            r.host@ == host.text_view(),
            r.port == port,
    {
        Self { host: host.into_text(), port }
    }
}

/// Information about the process that initiated the connection.
#[derive(Debug, Clone, PartialEq, Eq)]
pub struct ProcessInfo {
    pub pid: u32,
    pub name: Option<String>,
}

#[derive(Debug, Clone, PartialEq, Eq)]
pub struct Socks4Request {
    pub user_id: String,
}

#[derive(Debug, Clone, PartialEq, Eq)]
pub struct HttpConnectRequest {
    pub target: String,
    pub http_version: String,
    pub headers: Headers,
}

#[derive(Debug, Clone, PartialEq, Eq)]
pub struct HttpDirectRequest {
    pub method: String,
    pub path: String,
    pub http_version: String,
    pub headers: Headers,
}

#[derive(Debug, Clone, PartialEq, Eq)]
pub struct HttpProxyRequest {
    pub method: String,
    pub url: url::Url,
    pub http_version: String,
    pub headers: Headers,
}

/// The protocol-specific request that initiated the proxy connection.
#[derive(Debug, Clone, PartialEq, Eq)]
pub enum ConnectRequest {
    Socks4(Socks4Request),
    Socks5,
    HttpConnect(HttpConnectRequest),
    TlsSni,
    HttpDirect(HttpDirectRequest),
    HttpProxy(HttpProxyRequest),
}

/// Options returned when accepting a connection.
///
/// All fields default to `None`, which tells the proxy to use its own defaults.
#[derive(Debug, Clone, PartialEq, Eq)]
pub struct AcceptOptions {
    pub target_addr: Option<TargetAddress>,
    pub proxy: Option<Proxy>,
    pub record: Option<bool>,
    pub intercept_tls: Option<bool>,
}

/// The options that leave every choice to the proxy.
pub open spec fn default_accept_options() -> AcceptOptions {
    AcceptOptions { target_addr: None, proxy: None, record: None, intercept_tls: None }
}

impl Default for AcceptOptions {
    fn default() -> (r: Self)
        ensures
            r == default_accept_options(),
    {
        AcceptOptions { target_addr: None, proxy: None, record: None, intercept_tls: None }
    }
}

/// The result returned by a connect handler to accept or reject the connection.
#[derive(Debug, Clone, PartialEq, Eq)]
pub enum ConnectResult {
    Accept(AcceptOptions),
    Reject,
}

impl ConnectResult {
    /// Accept the connection with default settings.
    pub fn accept() -> (r: Self)
        ensures
            r == ConnectResult::Accept(default_accept_options()),
    {
        ConnectResult::Accept(AcceptOptions::default())
    }

    /// Accept the connection and route it through an upstream proxy.
    pub fn use_proxy(proxy: Option<Proxy>) -> (r: Self)
        ensures
            r == ConnectResult::Accept(AcceptOptions { proxy, ..default_accept_options() }),
    {
        ConnectResult::Accept(AcceptOptions { proxy, ..AcceptOptions::default() })
    }

    /// Reject the connection.
    pub fn reject() -> (r: Self)
        ensures
            r == ConnectResult::Reject,
    {
        ConnectResult::Reject
    }
}

impl From<AcceptOptions> for ConnectResult {
    fn from(accept: AcceptOptions) -> (r: Self)
        ensures
            r == ConnectResult::Accept(accept),
    {
        ConnectResult::Accept(accept)
    }
}

impl vstd::std_specs::convert::FromSpecImpl<AcceptOptions> for ConnectResult {
    open spec fn obeys_from_spec() -> bool {
        true
    }

    open spec fn from_spec(accept: AcceptOptions) -> ConnectResult {
        ConnectResult::Accept(accept)
    }
}

/// Upstream proxy protocol.
#[derive(Debug, Clone, Copy, PartialEq, Eq, Structural, Hash)]
pub enum ProxyType {
    Http,
    Https,
    Socks4,
    Socks4a,
    Socks5,
    Socks5h,
}

impl Default for ProxyType {
    fn default() -> (r: Self)
        ensures
            r == ProxyType::Http,
    {
        ProxyType::Http
    }
}

/// The model of an upstream proxy: its protocol, address and credentials.
pub struct ProxyView {
    pub proxy_type: ProxyType,
    pub host: Seq<char>,
    pub port: u16,
    pub username: Option<Seq<char>>,
    pub password: Option<Seq<char>>,
}

/// An upstream proxy to route connections through.
///
/// Use one of the constructor methods ([`http`](Proxy::http), [`socks5`](Proxy::socks5), etc.)
/// to create an instance.
#[derive(Debug, Clone, PartialEq, Eq)]
pub struct Proxy {
    proxy_type: ProxyType,
    host: String,
    port: u16,
    username: Option<String>,
    password: Option<String>,
}

impl View for Proxy {
    type V = ProxyView;

    closed spec fn view(&self) -> ProxyView {
        ProxyView {
            proxy_type: self.proxy_type,
            host: self.host@,
            port: self.port,
            username: self.username.deep_view(),
            password: self.password.deep_view(),
        }
    }
}

impl Proxy {
    fn with_type(
        proxy_type: ProxyType,
        host: String,
        port: u16,
        username: Option<String>,
        password: Option<String>,
    ) -> (r: Self)
        ensures
            r@ == (ProxyView {
                proxy_type,
                host: host@,
                port,
                username: username.deep_view(),
                password: password.deep_view(),
            }),
    {
        Self { proxy_type, host, port, username, password }
    }

    /// An HTTP proxy.
    pub fn http(host: String, port: u16, username: Option<String>, password: Option<String>) -> (r: Self)
        ensures
            r@ == (ProxyView {
                proxy_type: ProxyType::Http,
                host: host@,
                port,
                username: username.deep_view(),
                password: password.deep_view(),
            }),
    {
        Self::with_type(ProxyType::Http, host, port, username, password)
    }

    /// An HTTPS proxy.
    pub fn https(host: String, port: u16, username: Option<String>, password: Option<String>) -> (r: Self)
        ensures
            r@ == (ProxyView {
                proxy_type: ProxyType::Https,
                host: host@,
                port,
                username: username.deep_view(),
                password: password.deep_view(),
            }),
    {
        Self::with_type(ProxyType::Https, host, port, username, password)
    }

    /// A SOCKS4 proxy; `user_id` is sent as the user name, with no password.
    pub fn socks4(host: String, port: u16, user_id: Option<String>) -> (r: Self)
        ensures
            r@ == (ProxyView {
                proxy_type: ProxyType::Socks4,
                host: host@,
                port,
                username: user_id.deep_view(),
                password: None,
            }),
    {
        Self::with_type(ProxyType::Socks4, host, port, user_id, None)
    }

    /// A SOCKS4a proxy; `user_id` is sent as the user name, with no password.
    pub fn socks4a(host: String, port: u16, user_id: Option<String>) -> (r: Self)
        ensures
            r@ == (ProxyView {
                proxy_type: ProxyType::Socks4a,
                host: host@,
                port,
                username: user_id.deep_view(),
                password: None,
            }),
    {
        Self::with_type(ProxyType::Socks4a, host, port, user_id, None)
    }

    /// A SOCKS5 proxy.
    pub fn socks5(host: String, port: u16, username: Option<String>, password: Option<String>) -> (r: Self)
        ensures
            r@ == (ProxyView {
                proxy_type: ProxyType::Socks5,
                host: host@,
                port,
                username: username.deep_view(),
                password: password.deep_view(),
            }),
    {
        Self::with_type(ProxyType::Socks5, host, port, username, password)
    }

    /// A SOCKS5 proxy that resolves host names itself.
    pub fn socks5h(host: String, port: u16, username: Option<String>, password: Option<String>) -> (r: Self)
        ensures
            r@ == (ProxyView {
                proxy_type: ProxyType::Socks5h,
                host: host@,
                port,
                username: username.deep_view(),
                password: password.deep_view(),
            }),
    {
        Self::with_type(ProxyType::Socks5h, host, port, username, password)
    }

    /// The proxy protocol.
    pub fn proxy_type(&self) -> (r: ProxyType)
        ensures
            r == self@.proxy_type,
    {
        self.proxy_type
    }

    /// The proxy host.
    pub fn host(&self) -> (r: &str)
        ensures
            r@ == self@.host,
    {
        self.host.as_str()
    }

    /// The proxy port.
    pub fn port(&self) -> (r: u16)
        ensures
            r == self@.port,
    {
        self.port
    }

    /// The user name sent to the proxy, if any.
    pub fn username(&self) -> (r: Option<&String>)
        ensures
            r.deep_view() == self@.username,
    {
        self.username.as_ref()
    }

    /// The password sent to the proxy, if any.
    pub fn password(&self) -> (r: Option<&String>)
        ensures
            r.deep_view() == self@.password,
    {
        self.password.as_ref()
    }
}

} // verus!

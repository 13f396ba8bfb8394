//! Session entries and related data types (requests, responses, headers, timings).

use vstd::prelude::*;
use core::time::Duration;
use crate::net::IpAddr;
use crate::proxy_server::ProcessInfo;
use crate::shared::NamedU16;
pub use crate::headers::Headers;

verus! {

/// A single HTTP transaction captured by the proxy.
///
/// Contains the full request/response pair, timing information, TLS details
/// and optional HTTP/2 stream reference.
#[derive(Debug, Clone)]
pub struct SessionEntry {
    pub id: ulid::Ulid,
    pub url: url::Url,
    pub client_addr: Option<NetAddress>,
    pub remote_addr: Option<NetAddress>,
    pub http_version: String,
    pub transaction_type: TransactionType,
    pub request: Request,
    pub response: Option<Response>,
    pub is_websocket: bool,
    pub tls: TlsSettings,
    pub http2: Option<Http2StreamRef>,
    pub timings: Timings,
    pub process: Option<ProcessInfo>,
}

/// An IP address with an optional port.
#[derive(Debug, Clone, Copy, PartialEq, Eq, Hash)]
pub struct NetAddress {
    pub ip: IpAddr,
    pub port: Option<u16>,
}

/// Whether the entry represents a regular request or an HTTP/2 server push.
#[derive(Debug, Clone, Copy, PartialEq, Eq, Hash)]
pub enum TransactionType {
    Request,
    PushPromise,
}

/// TLS connection metadata associated with a session entry.
#[derive(Debug, Clone)]
pub struct TlsSettings {
    pub connection_id: Option<ulid::Ulid>,
    pub tls_version: Option<NamedU16>,
    pub cipher_suite: Option<NamedU16>,
    pub ja3: Option<Ja3>,
    pub ja4: Option<Ja4>,
}

/// Reference to an HTTP/2 stream within a connection.
#[derive(Debug, Clone, Copy, PartialEq, Eq, Hash)]
pub struct Http2StreamRef {
    pub connection_id: ulid::Ulid,
    pub stream_id: u32,
}

/// A point in time in UTC: whole seconds since the Unix epoch and the
/// nanoseconds past that second.
#[derive(Debug, Clone, Copy, PartialEq, Eq, Hash)]
pub struct UtcTime {
    pub seconds: i64,
    pub nanos: u32,
}

/// Timing breakdown for a session entry.
///
/// Each phase is optional and will be `None` when the phase was not
/// observed or does not apply.
#[derive(Debug, Clone)]
pub struct Timings {
    /// Request start (UTC).
    pub started_at: UtcTime,
    /// Duration in milliseconds.
    pub blocked: Option<Duration>,
    /// Duration in milliseconds.
    pub dns: Option<Duration>,
    /// Duration in milliseconds.
    pub connect: Option<Duration>,
    /// Duration in milliseconds.
    pub send: Option<Duration>,
    /// Duration in milliseconds.
    pub wait: Option<Duration>,
    /// Duration in milliseconds.
    pub receive: Option<Duration>,
    /// Duration in milliseconds.
    pub ssl: Option<Duration>,
}

/// JA3 TLS fingerprint (raw string + MD5 hash).
#[derive(Debug, Clone, PartialEq, Eq)]
pub struct Ja3 {
    pub string: String,
    pub hash: String,
}

/// JA4 TLS fingerprint (raw + hashed form).
#[derive(Debug, Clone, PartialEq, Eq)]
pub struct Ja4 {
    pub raw: String,
    pub hashed: String,
}

/// The request half of a session entry.
#[derive(Debug, Clone)]
pub struct Request {
    pub method: Option<String>,
    pub path: Option<String>,
    pub http_version: Option<String>,
    pub headers: Headers,
    pub body_size: Option<usize>,
}

/// The response half of a session entry.
#[derive(Debug, Clone)]
pub struct Response {
    pub http_version: Option<String>,
    pub status_code: Option<u16>,
    pub status_text: Option<String>,
    pub headers: Headers,
    pub body_size: Option<usize>,
}

/// Lightweight session descriptor returned when listing sessions.
#[derive(Debug, Clone, PartialEq, Eq)]
pub struct SessionInfo {
    pub id: ulid::Ulid,
    pub name: String,
}

} // verus!

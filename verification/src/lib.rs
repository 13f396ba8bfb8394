//! Data model and verified core logic of an SDK for building powhttp
//! extensions: the values exchanged with the powhttp host (session entries,
//! TLS and HTTP/2 events, proxy connection requests and results), an ordered,
//! case-insensitive header list, the menu and overview trees that extensions
//! register, and the bookkeeping of the handlers that the host calls back.

pub mod foreign;
pub mod text;

/// Small shared types used across multiple modules.
pub mod shared;
/// Network addresses as plain values.
pub mod net;
/// TLS record-layer messages.
pub mod tls;
/// HTTP/2 frames.
pub mod http2;
/// The ordered, case-insensitive header list.
pub mod headers;
/// Laws of the header list.
pub mod headers_laws;
/// Session entries and related data types (requests, responses, headers, timings).
pub mod sessions;
/// Proxy server connection handling and upstream proxy configuration.
pub mod proxy_server;
/// Context-menu items and submenus for single and multi-entry selections.
pub mod context_menu;
/// Overview fields and sections.
pub mod overview;
/// Message tabs of the Inspector.
pub mod inspector;
/// Handlers registered by id.
pub mod registry;
/// Dispatch of the host's calls to registered handlers.
pub mod dispatch;
/// Hex and base64 encodings used on the wire.
pub mod codec;
/// How a run of the extension ends.
pub mod lifecycle;

pub use shared::{NamedU16, NamedU32, NamedU8, Side};
pub use dispatch::{MultiEntryContext, SingleEntryContext};
pub use headers::Headers;
pub use overview::{OverviewField, OverviewNode, OverviewSection};
pub use context_menu::{ContextMenuItem, ContextMenuNode, ContextMenuSubmenu};
pub use inspector::{Language, MessageTab, TabContent};

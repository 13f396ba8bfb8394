//! Small value types shared by the TLS, HTTP/2 and session models.

use vstd::prelude::*;

verus! {

/// Which side of the connection a message originated from.
#[derive(Debug, Copy, Clone, PartialEq, Eq, Structural, Hash)]
pub enum Side {
    Client,
    Server,
}

/// A `u8` value paired with its human-readable name (e.g. a TLS alert level).
#[derive(Debug, Clone, PartialEq, Eq)]
pub struct NamedU8 {
    pub value: u8,
    pub name: String,
}

/// A `u16` value paired with its human-readable name (e.g. a TLS cipher suite).
#[derive(Debug, Clone, PartialEq, Eq)]
pub struct NamedU16 {
    pub value: u16,
    pub name: String,
}

/// A `u32` value paired with its human-readable name (e.g. an HTTP/2 error code).
#[derive(Debug, Clone, PartialEq, Eq)]
pub struct NamedU32 {
    pub value: u32,
    pub name: String,
}

} // verus!

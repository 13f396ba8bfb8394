//! HTTP/2 frames observed on a connection.
use vstd::prelude::*;
use crate::shared::{NamedU8, NamedU16, NamedU32, Side};

verus! {

/// An HTTP/2 frame observed on one side of the connection.
#[derive(Debug, Clone)]
pub struct Http2Event {
    pub side: Side,
    pub frame: Frame,
}

/// A parsed HTTP/2 frame with its flags and payload.
#[derive(Debug, Clone)]
pub struct Frame {
    pub flags: Flags,
    pub payload: Payload,
}

/// HTTP/2 frame flags with the raw byte value and the named flags that are set.
#[derive(Debug, Clone)]
pub struct Flags {
    pub value: u8,
    pub defined: Vec<NamedU8>,
}

/// The frame-type–specific payload of an HTTP/2 frame.
#[derive(Debug, Clone)]
pub enum Payload {
    Data(Data),
    Headers(Headers),
    Priority(Priority),
    RstStream(RstStream),
    Settings(Settings),
    PushPromise(PushPromise),
    Ping(Ping),
    GoAway(GoAway),
    WindowUpdate(WindowUpdate),
    Continuation(Continuation),
    Unknown(UnknownPayload)
}

#[derive(Debug, Clone)]
pub struct Data {
    pub padding_len: Option<usize>,
    pub data: Vec<u8>,
}

#[derive(Debug, Clone)]
pub struct Headers {
    pub padding_len: Option<usize>,
    pub priority_info: Option<Priority>,
    pub header_block_fragment: Vec<u8>,
}

#[derive(Debug, Clone, Copy)]
pub struct Priority {
    pub is_exclusive: bool,
    pub stream_dependency: u32,
    pub weight: u8,
}

#[derive(Debug, Clone)]
pub struct RstStream {
    pub error_code: NamedU32,
}

#[derive(Debug, Clone)]
pub struct Settings {
    pub settings: Vec<SettingParameter>,
}

#[derive(Debug, Clone)]
pub struct SettingParameter {
    pub identifier: NamedU16,
    pub value: u32,
}

#[derive(Debug, Clone)]
pub struct PushPromise {
    pub padding_len: Option<usize>,
    pub promised_stream_id: u32,
    pub header_block_fragment: Vec<u8>,
}

#[derive(Debug, Clone)]
pub struct Ping {
    pub data: Vec<u8>,
}

#[derive(Debug, Clone)]
pub struct GoAway {
    pub last_stream_id: u32,
    pub error_code: NamedU32,
    pub debug_data: Vec<u8>,
}

#[derive(Debug, Clone, Copy)]
pub struct WindowUpdate {
    pub window_size_increment: u32,
}

#[derive(Debug, Clone)]
pub struct Continuation {
    pub field_block_fragment: Vec<u8>,
}

#[derive(Debug, Clone)]
pub struct UnknownPayload {
    pub data: Vec<u8>,
}

} // verus!

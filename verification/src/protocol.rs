//! What the host and the companion say to each other.

use crate::binary32::Binary32;
use serde_json::Value;
use vstd::prelude::*;

verus! {

/// The version that both sides must speak.
pub const PROTOCOL_VERSION: u32 = 5;

/// What the host sends. Of a frame's contents it holds what the companion acts on.
#[derive(Debug)]
pub enum HostFrame {
    Init { v: u32, device_settings: Value },
    Settings { v: u32, device_settings: Value },
    Message { v: u32 },
    Shutdown { v: u32 },
}

impl HostFrame {
    /// The version that a frame is written in.
    pub open spec fn spoken_version(self) -> u32 {
        match self {
            HostFrame::Init { v, .. } => v,
            HostFrame::Settings { v, .. } => v,
            HostFrame::Message { v } => v,
            HostFrame::Shutdown { v } => v,
        }
    }

    /// The version that a frame is written in.
    pub fn version(&self) -> (version: u32)
        ensures
            version == self.spoken_version(),
    {
        match self {
            HostFrame::Init { v, .. } => *v,
            HostFrame::Settings { v, .. } => *v,
            HostFrame::Message { v } => *v,
            HostFrame::Shutdown { v } => *v,
        }
    }
}

/// Which surfaces a message is for.
#[derive(Clone, Copy, Debug, PartialEq, Eq, Structural)]
pub enum MessageTarget {
    Broadcast,
}

/// One analysed moment of sound.
#[derive(Debug)]
pub struct AudioFrame {
    pub captured_at_unix_ms: u128,
    pub level: Binary32,
    pub peak: Binary32,
    pub bands: Vec<Binary32>,
}

/// What the companion tells the surfaces.
#[derive(Debug)]
pub enum Payload {
    Frame(AudioFrame),
    Error { message: String },
}

/// What the companion sends.
#[derive(Debug)]
pub enum CompanionFrame {
    Ready { v: u32 },
    Message { v: u32, target: MessageTarget, payload: Payload },
    Error { v: u32, message: String, code: String },
}

impl CompanionFrame {
    /// Whether this is the error `code` with the message `text`.
    pub open spec fn reports(self, code: Seq<char>, text: Seq<char>) -> bool {
        match self {
            CompanionFrame::Error { v, message, code: sent } => v == PROTOCOL_VERSION && message@
                == text && sent@ == code,
            _ => false,
        }
    }

    /// Announces that the companion is ready.
    pub fn ready() -> (frame: CompanionFrame)
        ensures
            frame == (CompanionFrame::Ready { v: PROTOCOL_VERSION }),
    {
        CompanionFrame::Ready { v: PROTOCOL_VERSION }
    }

    /// Addresses a payload to all surfaces.
    pub fn broadcast(payload: Payload) -> (frame: CompanionFrame)
        ensures
            frame == (CompanionFrame::Message {
                v: PROTOCOL_VERSION,
                target: MessageTarget::Broadcast,
                payload,
            }),
    {
        CompanionFrame::Message { v: PROTOCOL_VERSION, target: MessageTarget::Broadcast, payload }
    }

    /// Reports an error of the protocol.
    pub fn error(code: &str, message: String) -> (frame: CompanionFrame)
        ensures
            frame.reports(code@, message@),
    {
        CompanionFrame::Error { v: PROTOCOL_VERSION, message, code: code.to_owned() }
    }
}

/// A frame speaks the version that is written in it.
pub proof fn law_version_is_read(frame: &HostFrame, version: u32)
    requires
        call_ensures(HostFrame::version, (frame,), version),
    ensures
        *frame matches HostFrame::Init { v, .. } ==> version == v,
        *frame matches HostFrame::Settings { v, .. } ==> version == v,
        *frame matches HostFrame::Message { v } ==> version == v,
        *frame matches HostFrame::Shutdown { v } ==> version == v,
{
}

/// Whatever the companion sends is written in version five and holds what it was given:
/// a payload goes to all surfaces unchanged, an error keeps its code and its message
/// apart.
pub proof fn law_frames_hold_what_they_are_given(
    payload: Payload,
    code: &str,
    message: String,
    ready: CompanionFrame,
    broadcast: CompanionFrame,
    error: CompanionFrame,
)
    requires
        call_ensures(CompanionFrame::ready, (), ready),
        call_ensures(CompanionFrame::broadcast, (payload,), broadcast),
        call_ensures(CompanionFrame::error, (code, message), error),
    ensures
        ready matches CompanionFrame::Ready { v } && v == 5,
        broadcast matches CompanionFrame::Message { v, target, payload: sent } && v == 5
            && target is Broadcast && sent == payload,
        error matches CompanionFrame::Error { v, message: text, code: name } && v == 5 && text@
            == message@ && name@ == code@,
{
}

} // verus!

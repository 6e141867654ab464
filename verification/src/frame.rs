//! WebSocket frames as the relay core sees them.
//!
//! The transport layer turns whatever its socket library produces into a
//! `Frame` before handing it to the router, and turns a `Frame` back into a
//! wire message when writing. Payload bytes are carried verbatim; the relay
//! never interprets binary payloads.

use vstd::prelude::*;

verus! {

/// The period, in seconds, at which a session's keepalive duty emits a ping.
pub const KEEPALIVE_PERIOD_SECS: u64 = 30;

/// The capacity of each session's mailbox and of its outbound send queue:
/// how many frames may sit deposited and not yet relayed. A relay that falls
/// further behind misses the oldest frames; delivery is best-effort.
pub const MAILBOX_CAPACITY: usize = 100;

/// An inbound or outbound WebSocket frame, transport-independent.
#[derive(Debug, Clone, PartialEq, Eq)]
pub enum Frame {
    /// A text frame; routing directives arrive as text.
    Text(String),
    /// An opaque binary payload, forwarded verbatim.
    Binary(Vec<u8>),
    /// A keepalive control frame.
    Ping,
    /// The reply to a ping; ignored by the router.
    Pong,
    /// A close frame; ends the session's inbound dispatcher.
    Close,
}

/// The mathematical shape of a frame: its payload as a sequence.
pub enum FrameModel {
    Text(Seq<char>),
    Binary(Seq<u8>),
    Ping,
    Pong,
    Close,
}

impl View for Frame {
    type V = FrameModel;

    open spec fn view(&self) -> FrameModel {
        match self {
            Frame::Text(s) => FrameModel::Text(s@),
            Frame::Binary(b) => FrameModel::Binary(b@),
            Frame::Ping => FrameModel::Ping,
            Frame::Pong => FrameModel::Pong,
            Frame::Close => FrameModel::Close,
        }
    }
}

/// The frame the keepalive duty enqueues on every tick. It is always a ping,
/// whatever the session has otherwise received or sent.
pub fn keepalive_frame() -> (f: Frame)
    ensures
        f@ == FrameModel::Ping,
{
    Frame::Ping
}

} // verus!

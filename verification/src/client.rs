//! The bot-client abstraction: the error values a backend can surface,
//! the items its response stream yields, and protocol upgrades.
//!
//! A backend failure is always carried as a typed value through the same
//! channel as successful content, never as an out-of-band exception, so
//! the consumer can always append a visible error message and reset its
//! streaming flag.

use vstd::prelude::*;

use crate::model::MessageContent;

verus! {

/// The kind of a bot-client failure.
#[derive(Clone, Copy, Debug, PartialEq, Eq, Structural)]
pub enum ClientErrorKind {
    /// Transport-level failure.
    Network,
    /// Serialization or deserialization failure.
    Format,
    /// The backend reported a logical error or a malformed payload.
    Response,
}

/// The mathematical view of a [`ClientError`].
pub struct ClientErrorV {
    pub kind: ClientErrorKind,
    pub message: Seq<char>,
}

/// A typed bot-client failure.
#[derive(Debug)]
pub struct ClientError {
    pub kind: ClientErrorKind,
    pub message: String,
}

impl View for ClientError {
    type V = ClientErrorV;

    open spec fn view(&self) -> ClientErrorV {
        ClientErrorV { kind: self.kind, message: self.message@ }
    }
}

impl Clone for ClientError {
    fn clone(&self) -> (r: Self)
        ensures
            r@ == self@,
    {
        ClientError { kind: self.kind, message: self.message.clone() }
    }
}

impl ClientError {
    pub fn new(kind: ClientErrorKind, message: String) -> (r: ClientError)
        ensures
            r@ == (ClientErrorV { kind, message: message@ }),
    {
        ClientError { kind, message }
    }
}

/// A handle to a realtime channel a backend offered; the connection
/// itself lives outside this crate and is addressed by this id.
#[derive(Clone, Copy, Debug, PartialEq, Eq, Structural)]
pub struct RealtimeChannel {
    pub channel_id: u64,
}

/// A protocol escalation requested mid-stream. It is offered to plugins
/// in registration order and consumed by at most one of them.
#[derive(Clone, Copy, Debug, PartialEq, Eq, Structural)]
pub enum Upgrade {
    /// Promote the conversation to a realtime (voice) channel.
    Realtime(RealtimeChannel),
}

/// The mathematical view of a [`StreamEvent`].
pub enum StreamEventV {
    Content(crate::model::MessageContentV),
    Failure(ClientErrorV),
    Upgraded(Upgrade),
    Finished,
}

/// One item of a backend's response stream, as the controller consumes
/// it. Content items are cumulative snapshots, never deltas.
#[derive(Debug)]
pub enum StreamEvent {
    /// The full accumulated content so far.
    Content(MessageContent),
    /// The backend failed; the stream ends after this item.
    Failure(ClientError),
    /// The backend asked to escalate the protocol.
    Upgraded(Upgrade),
    /// The stream completed normally.
    Finished,
}

impl View for StreamEvent {
    type V = StreamEventV;

    open spec fn view(&self) -> StreamEventV {
        match self {
            StreamEvent::Content(c) => StreamEventV::Content(c@),
            StreamEvent::Failure(e) => StreamEventV::Failure(e@),
            StreamEvent::Upgraded(u) => StreamEventV::Upgraded(*u),
            StreamEvent::Finished => StreamEventV::Finished,
        }
    }
}

} // verus!

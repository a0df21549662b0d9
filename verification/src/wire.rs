//! What crosses the boundary of a session: the frames that the transport
//! hands in, and the actions that the session asks its owner to perform.
//!
//! Every type here holds plain data. Each has a view, a mathematical value
//! with sequences in place of strings and byte vectors, and the contracts of
//! the session speak of those views.

use vstd::prelude::*;

verus! {

/// Why a peer closes its connection: a status code and an optional text.
#[derive(Debug, Clone, PartialEq, Eq)]
pub struct CloseReason {
    pub code: u16,
    pub description: Option<String>,
}

/// The view of a [`CloseReason`].
pub struct CloseReasonView {
    pub code: u16,
    pub description: Option<Seq<char>>,
}

impl View for CloseReason {
    type V = CloseReasonView;

    open spec fn view(&self) -> CloseReasonView {
        CloseReasonView {
            code: self.code,
            description: match self.description {
                Some(d) => Some(d@),
                None => None,
            },
        }
    }
}

/// The view of an optional close reason.
pub open spec fn reason_view(reason: Option<CloseReason>) -> Option<CloseReasonView> {
    match reason {
        Some(r) => Some(r@),
        None => None,
    }
}

/// A fault of the transport under a session.
#[derive(Debug, Clone, Copy, PartialEq, Eq)]
pub enum ProtocolError {
    /// A client sent an unmasked frame.
    UnmaskedFrame,
    /// A server sent a masked frame.
    MaskedFrame,
    /// A frame carried an opcode that does not exist.
    InvalidOpcode(u8),
    /// A control frame had an invalid length.
    InvalidLength(usize),
    /// A frame carried an opcode that is not allowed where it stood.
    BadOpCode,
    /// A payload exceeded the size limit.
    Overflow,
    /// A continuation frame arrived though no fragmented message was open.
    ContinuationNotStarted,
    /// A new fragmented message began while another was open.
    ContinuationStarted,
    /// A fragment carried an unknown opcode.
    ContinuationFragment(u8),
    /// Reading or writing the underlying stream failed.
    Io,
}

/// One inbound event of the transport.
#[derive(Debug, Clone, PartialEq, Eq)]
pub enum Message {
    /// A text payload, to be relayed to the room.
    Text(String),
    /// A binary payload, echoed to the sender.
    Binary(Vec<u8>),
    /// A fragment of a larger payload. Fragments are not reassembled.
    Continuation,
    /// A liveness ping of the peer, with its payload.
    Ping(Vec<u8>),
    /// The peer's answer to a liveness probe.
    Pong(Vec<u8>),
    /// The peer asks to close, with an optional reason.
    Close(Option<CloseReason>),
    /// A keepalive event without content.
    Nop,
}

/// The view of a [`Message`].
pub enum MessageView {
    Text(Seq<char>),
    Binary(Seq<u8>),
    Continuation,
    Ping(Seq<u8>),
    Pong(Seq<u8>),
    Close(Option<CloseReasonView>),
    Nop,
}

impl View for Message {
    type V = MessageView;

    open spec fn view(&self) -> MessageView {
        match *self {
            Message::Text(t) => MessageView::Text(t@),
            Message::Binary(b) => MessageView::Binary(b@),
            Message::Continuation => MessageView::Continuation,
            Message::Ping(p) => MessageView::Ping(p@),
            Message::Pong(p) => MessageView::Pong(p@),
            Message::Close(r) => MessageView::Close(reason_view(r)),
            Message::Nop => MessageView::Nop,
        }
    }
}

/// One thing that a session asks its owner to do.
#[derive(Debug, Clone, PartialEq, Eq)]
pub enum Action {
    /// Call the heartbeat of the session every `every` time units from now on.
    Heartbeat { every: u64 },
    /// Ask the registry to register session `id` in `room`. The owner adds
    /// the handle by which the registry is to reach the session.
    Register { id: u128, room: u128 },
    /// Ask the registry to unregister session `id` from `room`.
    Unregister { id: u128, room: u128 },
    /// Ask the registry to deliver `text` to the members of `room`.
    Broadcast { id: u128, room: u128, text: String },
    /// Write a text frame to the peer.
    Text(String),
    /// Write a binary frame to the peer.
    Binary(Vec<u8>),
    /// Write a pong frame to the peer.
    Pong(Vec<u8>),
    /// Write a close frame to the peer.
    Close(Option<CloseReason>),
    /// Release the transport: the session has ended.
    Stop,
}

/// The view of an [`Action`].
pub enum ActionView {
    Heartbeat { every: u64 },
    Register { id: u128, room: u128 },
    Unregister { id: u128, room: u128 },
    Broadcast { id: u128, room: u128, text: Seq<char> },
    Text(Seq<char>),
    Binary(Seq<u8>),
    Pong(Seq<u8>),
    Close(Option<CloseReasonView>),
    Stop,
}

impl View for Action {
    type V = ActionView;

    open spec fn view(&self) -> ActionView {
        match *self {
            Action::Heartbeat { every } => ActionView::Heartbeat { every },
            Action::Register { id, room } => ActionView::Register { id, room },
            Action::Unregister { id, room } => ActionView::Unregister { id, room },
            Action::Broadcast { id, room, text } => ActionView::Broadcast { id, room, text: text@ },
            Action::Text(t) => ActionView::Text(t@),
            Action::Binary(b) => ActionView::Binary(b@),
            Action::Pong(p) => ActionView::Pong(p@),
            Action::Close(r) => ActionView::Close(reason_view(r)),
            Action::Stop => ActionView::Stop,
        }
    }
}

/// The views of a list of actions, in order.
pub open spec fn action_views(actions: Seq<Action>) -> Seq<ActionView> {
    actions.map_values(|a: Action| a@)
}

} // verus!

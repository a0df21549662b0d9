//! The per-connection session.
//!
//! A session owns the liveness state of one client and decides, event by
//! event, what its owner has to do: write to the transport, talk to the
//! registry, or release the connection. It performs none of this itself. Each
//! method takes one event and the current time and returns the actions, so the
//! whole of the session's behaviour is a function of its state and its input.
//!
//! Time is counted in whole time units by a clock that the owner reads.

use vstd::prelude::*;
use crate::ident::fresh_id;
use crate::ident::is_random_id;
use crate::wire::action_views;
use crate::wire::Action;
use crate::wire::ActionView;
use crate::wire::Message;
use crate::wire::MessageView;
use crate::wire::ProtocolError;

verus! {

/// The time between two heartbeats of a session.
///
/// It is longer than [`CLIENT_TIMEOUT`], and the timeout is only looked at
/// when a heartbeat comes: a silent peer is evicted at the first heartbeat
/// after the timeout has passed, so up to one interval after its last sign of
/// life.
pub const HEARTBEAT_INTERVAL: u64 = 100;

/// How long a peer may stay silent before a heartbeat evicts it.
pub const CLIENT_TIMEOUT: u64 = 10;

/// The text frame that every heartbeat writes to the peer.
pub const PROBE_TEXT: &'static str = "\u{c13c}\u{c11c} \u{d5ec}\u{c2a4} \u{ccb4}\u{d06c}";

/// The payload of the pong frame that a heartbeat writes to a live peer:
/// the bytes of `PING`.
pub open spec fn probe_payload() -> Seq<u8> {
    seq![80u8, 73u8, 78u8, 71u8]
}

/// Where a session stands in its life. The three closed phases are final.
#[derive(Debug, Clone, Copy, PartialEq, Eq, Structural)]
pub enum Phase {
    /// The connection is open.
    Active,
    /// The peer stayed silent for longer than the timeout.
    TimedOut,
    /// The peer closed the connection, or its stream ended.
    ClosedByPeer,
    /// A refused registration, an unsupported frame or a transport fault
    /// ended the session.
    ClosedByError,
}

/// The mathematical state of a session.
pub struct SessionView {
    /// The identifier of the session.
    pub id: u128,
    /// The room that the session belongs to.
    pub room: u128,
    /// The time of the last sign of life of the peer.
    pub last_activity: u64,
    /// The phase of the session.
    pub phase: Phase,
    /// Whether the session still has to tell the registry that it leaves.
    pub unregister_due: bool,
}

/// A state and the actions that led to it.
pub struct Outcome {
    pub next: SessionView,
    pub actions: Seq<ActionView>,
}

/// Whether a peer last heard of at `last_activity` has timed out at `now`.
/// A clock that reads earlier than the last sign of life counts as no time
/// gone by.
pub open spec fn expired(last_activity: u64, now: u64) -> bool {
    now - last_activity > CLIENT_TIMEOUT
}

/// The view of what the transport hands to a session.
pub open spec fn item_view(item: Result<Message, ProtocolError>) -> Result<
    MessageView,
    ProtocolError,
> {
    match item {
        Ok(m) => Ok(m@),
        Err(e) => Err(e),
    }
}

/// What a session does with one event of its transport, read at time `now`.
///
/// A closed session ignores every event. An active one
/// - answers a ping with a pong of the same payload, and notes the time;
/// - notes the time of a pong;
/// - echoes a binary payload;
/// - acknowledges a close request, leaves the registry and ends as closed by
///   the peer;
/// - leaves the registry and ends as closed by error on a fragment, which it
///   does not support;
/// - does nothing on a keepalive;
/// - passes a text payload to the registry, for its room;
/// - ends as closed by error on a fault of the transport. It asks for nothing
///   then: leaving the registry stays due until the transport is released.
pub open spec fn on_frame(s: SessionView, item: Result<MessageView, ProtocolError>, now: u64)
    -> Outcome {
    if s.phase != Phase::Active {
        Outcome { next: s, actions: seq![] }
    } else {
        match item {
            Ok(MessageView::Ping(payload)) => Outcome {
                next: SessionView { last_activity: now, ..s },
                actions: seq![ActionView::Pong(payload)],
            },
            Ok(MessageView::Pong(_)) => Outcome {
                next: SessionView { last_activity: now, ..s },
                actions: seq![],
            },
            Ok(MessageView::Binary(payload)) => Outcome {
                next: s,
                actions: seq![ActionView::Binary(payload)],
            },
            Ok(MessageView::Close(reason)) => Outcome {
                next: SessionView { phase: Phase::ClosedByPeer, unregister_due: false, ..s },
                actions: seq![
                    ActionView::Close(reason),
                    ActionView::Unregister { id: s.id, room: s.room },
                    ActionView::Stop,
                ],
            },
            Ok(MessageView::Continuation) => Outcome {
                next: SessionView { phase: Phase::ClosedByError, unregister_due: false, ..s },
                actions: seq![ActionView::Unregister { id: s.id, room: s.room }, ActionView::Stop],
            },
            Ok(MessageView::Nop) => Outcome { next: s, actions: seq![] },
            Ok(MessageView::Text(text)) => Outcome {
                next: s,
                actions: seq![ActionView::Broadcast { id: s.id, room: s.room, text }],
            },
            Err(_) => Outcome {
                next: SessionView { phase: Phase::ClosedByError, ..s },
                actions: seq![],
            },
        }
    }
}

/// What a session does when its owner starts it: it asks for its heartbeat
/// and for its registration. A closed session does nothing.
pub open spec fn on_start(s: SessionView) -> Outcome {
    if s.phase != Phase::Active {
        Outcome { next: s, actions: seq![] }
    } else {
        Outcome {
            next: s,
            actions: seq![
                ActionView::Heartbeat { every: HEARTBEAT_INTERVAL },
                ActionView::Register { id: s.id, room: s.room },
            ],
        }
    }
}

/// What a session does with the registry's answer to its registration.
/// A refusal ends an active session as closed by error, and nothing is due to
/// the registry, which holds nothing of it. An acceptance changes nothing.
pub open spec fn on_register_result(s: SessionView, accepted: bool) -> Outcome {
    if s.phase != Phase::Active || accepted {
        Outcome { next: s, actions: seq![] }
    } else {
        Outcome {
            next: SessionView { phase: Phase::ClosedByError, unregister_due: false, ..s },
            actions: seq![ActionView::Stop],
        }
    }
}

/// What a session does at a heartbeat that comes at time `now`.
///
/// An active session writes the probe text. If the peer has timed out it then
/// leaves the registry and ends; else it writes the probe pong. A closed
/// session does nothing.
pub open spec fn on_heartbeat(s: SessionView, now: u64) -> Outcome {
    if s.phase != Phase::Active {
        Outcome { next: s, actions: seq![] }
    } else if expired(s.last_activity, now) {
        Outcome {
            next: SessionView { phase: Phase::TimedOut, unregister_due: false, ..s },
            actions: seq![
                ActionView::Text(PROBE_TEXT@),
                ActionView::Unregister { id: s.id, room: s.room },
                ActionView::Stop,
            ],
        }
    } else {
        Outcome {
            next: s,
            actions: seq![ActionView::Text(PROBE_TEXT@), ActionView::Pong(probe_payload())],
        }
    }
}

/// What a session does with a text that the registry delivers to it: an
/// active session writes it to the peer as one text frame, its own messages
/// included; a closed one writes nothing.
pub open spec fn on_delivery(s: SessionView, text: Seq<char>) -> Outcome {
    if s.phase != Phase::Active {
        Outcome { next: s, actions: seq![] }
    } else {
        Outcome { next: s, actions: seq![ActionView::Text(text)] }
    }
}

/// The phase of a session after its transport is released: an active session
/// is closed by the peer, a closed one stays as it is.
pub open spec fn closed_phase(phase: Phase) -> Phase {
    if phase == Phase::Active {
        Phase::ClosedByPeer
    } else {
        phase
    }
}

/// What a session does when its transport is released, for whatever reason.
/// If it still has to leave the registry, it does so now.
pub open spec fn on_stopped(s: SessionView) -> Outcome {
    Outcome {
        next: SessionView { phase: closed_phase(s.phase), unregister_due: false, ..s },
        actions: if s.unregister_due {
            seq![ActionView::Unregister { id: s.id, room: s.room }]
        } else {
            seq![]
        },
    }
}

/// The state of a session that has just been made.
pub open spec fn fresh_session(id: u128, room: u128, now: u64) -> SessionView {
    SessionView { id, room, last_activity: now, phase: Phase::Active, unregister_due: true }
}

/// Whether a state can occur: an active session has not left the registry.
/// Every fresh session is consistent, and every step keeps a session so.
pub open spec fn consistent(s: SessionView) -> bool {
    s.phase == Phase::Active ==> s.unregister_due
}

/// Everything that can happen to a session, as one value.
pub enum Event {
    /// The owner starts the session.
    Started,
    /// The registry answers the registration.
    RegisterResult { accepted: bool },
    /// The transport hands in a frame or a fault, at time `now`.
    Frame { item: Result<MessageView, ProtocolError>, now: u64 },
    /// A heartbeat comes, at time `now`.
    Heartbeat { now: u64 },
    /// The registry delivers a text.
    Delivery { text: Seq<char> },
    /// The transport is released.
    Stopped,
}

/// What a session does with one event.
pub open spec fn step(s: SessionView, event: Event) -> Outcome {
    match event {
        Event::Started => on_start(s),
        Event::RegisterResult { accepted } => on_register_result(s, accepted),
        Event::Frame { item, now } => on_frame(s, item, now),
        Event::Heartbeat { now } => on_heartbeat(s, now),
        Event::Delivery { text } => on_delivery(s, text),
        Event::Stopped => on_stopped(s),
    }
}

/// What a session does with a series of events: the state after the last,
/// and all the actions in the order in which it asked for them.
pub open spec fn run(s: SessionView, events: Seq<Event>) -> Outcome
    decreases events.len(),
{
    if events.len() == 0 {
        Outcome { next: s, actions: seq![] }
    } else {
        let first = step(s, events[0]);
        let rest = run(first.next, events.skip(1));
        Outcome { next: rest.next, actions: first.actions + rest.actions }
    }
}

/// One client's live connection: its identity, its room and its liveness.
#[derive(Debug, Clone, PartialEq, Eq)]
pub struct WsConn {
    room: u128,
    hb: u64,
    id: u128,
    phase: Phase,
    unregister_due: bool,
}

impl View for WsConn {
    type V = SessionView;

    closed spec fn view(&self) -> SessionView {
        SessionView {
            id: self.id,
            room: self.room,
            last_activity: self.hb,
            phase: self.phase,
            unregister_due: self.unregister_due,
        }
    }
}

impl WsConn {
    /// Makes the session of a new connection to `room`, at time `now`, under
    /// a fresh random identifier.
    pub fn new(room: u128, now: u64) -> (s: Self)
        ensures
            is_random_id(s@.id),
            s@ == fresh_session(s@.id, room, now),
    {
        WsConn::with_id(fresh_id(), room, now)
    }

    /// Makes the session of a new connection to `room`, at time `now`, under
    /// the identifier `id`.
    pub fn with_id(id: u128, room: u128, now: u64) -> (s: Self)
        ensures
            s@ == fresh_session(id, room, now),
    {
        WsConn { room, hb: now, id, phase: Phase::Active, unregister_due: true }
    }

    /// Starts the session: see [`on_start`].
    pub fn started(&mut self) -> (actions: Vec<Action>)
        ensures
            final(self)@ == on_start(old(self)@).next,
            action_views(actions@) == on_start(old(self)@).actions,
    {
        let mut actions: Vec<Action> = Vec::new();
        if self.is_active() {
            actions.push(Action::Heartbeat { every: HEARTBEAT_INTERVAL });
            actions.push(Action::Register { id: self.id, room: self.room });
        }
        assert(action_views(actions@) =~= on_start(old(self)@).actions);
        actions
    }

    /// Takes the registry's answer to the registration: see
    /// [`on_register_result`].
    pub fn register_result(&mut self, accepted: bool) -> (actions: Vec<Action>)
        ensures
            final(self)@ == on_register_result(old(self)@, accepted).next,
            action_views(actions@) == on_register_result(old(self)@, accepted).actions,
    {
        let mut actions: Vec<Action> = Vec::new();
        if self.is_active() && !accepted {
            self.phase = Phase::ClosedByError;
            self.unregister_due = false;
            actions.push(Action::Stop);
        }
        assert(action_views(actions@) =~= on_register_result(old(self)@, accepted).actions);
        actions
    }

    /// Handles one event of the transport, read at time `now`.
    ///
    /// A fault of the transport comes back as the error, whatever the phase,
    /// and an active session is closed by it; the owner then releases the
    /// connection and calls [`WsConn::stopped`], which leaves the registry.
    /// Every other event gives the actions of [`on_frame`].
    pub fn handle(&mut self, item: Result<Message, ProtocolError>, now: u64) -> (r: Result<
        Vec<Action>,
        ProtocolError,
    >)
        ensures
            final(self)@ == on_frame(old(self)@, item_view(item), now).next,
            match r {
                Ok(actions) => item is Ok && action_views(actions@) == on_frame(
                    old(self)@,
                    item_view(item),
                    now,
                ).actions,
                Err(e) => item is Err && item->Err_0 == e,
            },
    {
        let active = self.is_active();
        let mut actions: Vec<Action> = Vec::new();
        match item {
            Err(e) => {
                if active {
                    self.phase = Phase::ClosedByError;
                }
                return Err(e);
            },
            Ok(msg) => {
                if active {
                    match msg {
                        Message::Ping(payload) => {
                            self.hb = now;
                            actions.push(Action::Pong(payload));
                        },
                        Message::Pong(_) => {
                            self.hb = now;
                        },
                        Message::Binary(payload) => {
                            actions.push(Action::Binary(payload));
                        },
                        Message::Close(reason) => {
                            self.phase = Phase::ClosedByPeer;
                            self.unregister_due = false;
                            actions.push(Action::Close(reason));
                            actions.push(Action::Unregister { id: self.id, room: self.room });
                            actions.push(Action::Stop);
                        },
                        Message::Continuation => {
                            self.phase = Phase::ClosedByError;
                            self.unregister_due = false;
                            actions.push(Action::Unregister { id: self.id, room: self.room });
                            actions.push(Action::Stop);
                        },
                        Message::Nop => {},
                        Message::Text(text) => {
                            actions.push(
                                Action::Broadcast { id: self.id, room: self.room, text },
                            );
                        },
                    }
                }
            },
        }
        assert(action_views(actions@) =~= on_frame(old(self)@, item_view(item), now).actions);
        Ok(actions)
    }

    /// The heartbeat of the session, at time `now`: see [`on_heartbeat`].
    pub fn hb(&mut self, now: u64) -> (actions: Vec<Action>)
        ensures
            final(self)@ == on_heartbeat(old(self)@, now).next,
            action_views(actions@) == on_heartbeat(old(self)@, now).actions,
    {
        let mut actions: Vec<Action> = Vec::new();
        if self.is_active() {
            actions.push(Action::Text(PROBE_TEXT.to_owned()));
            if now > self.hb && now - self.hb > CLIENT_TIMEOUT {
                self.phase = Phase::TimedOut;
                self.unregister_due = false;
                actions.push(Action::Unregister { id: self.id, room: self.room });
                actions.push(Action::Stop);
            } else {
                let mut payload: Vec<u8> = Vec::new();
                payload.push(80u8);
                payload.push(73u8);
                payload.push(78u8);
                payload.push(71u8);
                assert(payload@ =~= probe_payload());
                actions.push(Action::Pong(payload));
            }
        }
        assert(action_views(actions@) =~= on_heartbeat(old(self)@, now).actions);
        actions
    }

    /// Takes a text that the registry delivers: see [`on_delivery`].
    pub fn deliver(&mut self, text: String) -> (actions: Vec<Action>)
        ensures
            final(self)@ == on_delivery(old(self)@, text@).next,
            action_views(actions@) == on_delivery(old(self)@, text@).actions,
    {
        let mut actions: Vec<Action> = Vec::new();
        if self.is_active() {
            actions.push(Action::Text(text));
        }
        assert(action_views(actions@) =~= on_delivery(old(self)@, text@).actions);
        actions
    }

    /// Tells the session that its transport is released: see [`on_stopped`].
    pub fn stopped(&mut self) -> (actions: Vec<Action>)
        ensures
            final(self)@ == on_stopped(old(self)@).next,
            action_views(actions@) == on_stopped(old(self)@).actions,
    {
        let mut actions: Vec<Action> = Vec::new();
        if self.is_active() {
            self.phase = Phase::ClosedByPeer;
        }
        if self.unregister_due {
            self.unregister_due = false;
            actions.push(Action::Unregister { id: self.id, room: self.room });
        }
        assert(action_views(actions@) =~= on_stopped(old(self)@).actions);
        actions
    }

    /// The identifier of the session.
    pub fn id(&self) -> (id: u128)
        ensures
            id == self@.id,
    {
        self.id
    }

    /// The room of the session.
    pub fn room(&self) -> (room: u128)
        ensures
            room == self@.room,
    {
        self.room
    }

    /// The time of the peer's last sign of life.
    pub fn last_activity(&self) -> (t: u64)
        ensures
            t == self@.last_activity,
    {
        self.hb
    }

    /// The phase of the session.
    pub fn phase(&self) -> (p: Phase)
        ensures
            p == self@.phase,
    {
        self.phase
    }

    /// Whether the session is active: its connection is open.
    pub fn is_active(&self) -> (b: bool)
        ensures
            b == (self@.phase == Phase::Active),
    {
        match self.phase {
            Phase::Active => true,
            _ => false,
        }
    }

    /// Whether the session still has to tell the registry that it leaves.
    pub fn unregister_due(&self) -> (b: bool)
        ensures
            b == self@.unregister_due,
    {
        self.unregister_due
    }
}

} // verus!

//! What holds of the registry and of the sessions, whatever is done to them.
//!
//! The registry's laws are stated over its view, the map of seats; the
//! sessions' over the model of a session and the series of its events.

use vstd::prelude::*;
use crate::lobby::after_register;
use crate::lobby::after_unregister;
use crate::lobby::members;
use crate::lobby::recipients;
use crate::lobby::Seat;
use crate::session::consistent;
use crate::session::expired;
use crate::session::on_frame;
use crate::session::on_heartbeat;
use crate::session::run;
use crate::session::step;
use crate::session::Event;
use crate::session::Phase;
use crate::session::SessionView;
use crate::wire::ActionView;
use crate::wire::CloseReasonView;
use crate::wire::MessageView;

verus! {

/// A session is a member of one room at most.
pub proof fn membership_is_exclusive<H>(seats: Map<u128, Seat<H>>, id: u128, a: u128, b: u128)
    requires
        members(seats, a).contains(id),
        members(seats, b).contains(id),
    ensures
        a == b,
{
}

/// Registering a session makes it a member of the room it names and of no
/// other, whatever it was a member of before, and moves no other session.
pub proof fn register_seats_once<H>(
    seats: Map<u128, Seat<H>>,
    id: u128,
    room: u128,
    handle: H,
    other: u128,
)
    ensures
        members(after_register(seats, id, room, handle), other).contains(id) <==> other == room,
        forall|x: u128|
            x != id ==> (members(after_register(seats, id, room, handle), other).contains(x)
                <==> members(seats, other).contains(x)),
{
}

/// Unregistering a session a second time changes nothing, and neither does
/// unregistering one that was never registered.
pub proof fn unregister_is_idempotent<H>(seats: Map<u128, Seat<H>>, id: u128)
    ensures
        after_unregister(after_unregister(seats, id), id) == after_unregister(seats, id),
        !seats.contains_key(id) ==> after_unregister(seats, id) == seats,
{
    assert(after_unregister(after_unregister(seats, id), id) =~= after_unregister(seats, id));
    if !seats.contains_key(id) {
        assert(after_unregister(seats, id) =~= seats);
    }
}

/// An unregistered session is a member of no room and receives no broadcast,
/// and the other sessions stay where they were.
pub proof fn unregistered_is_unreachable<H>(
    seats: Map<u128, Seat<H>>,
    id: u128,
    room: u128,
    excluding: Option<u128>,
)
    ensures
        !members(after_unregister(seats, id), room).contains(id),
        !recipients(after_unregister(seats, id), room, excluding).contains(id),
        forall|x: u128|
            x != id ==> (members(after_unregister(seats, id), room).contains(x) <==> members(
                seats,
                room,
            ).contains(x)),
{
}

/// A broadcast that excludes no one reaches every member of the room, the
/// sender among them.
pub proof fn broadcast_reaches_every_member<H>(seats: Map<u128, Seat<H>>, room: u128, id: u128)
    requires
        seats.contains_key(id),
        seats[id].room == room,
    ensures
        recipients(seats, room, None).contains(id),
        recipients(seats, room, None) == members(seats, room),
{
}

/// A broadcast to one room reaches no session that is registered in another.
pub proof fn broadcast_stays_in_room<H>(
    seats: Map<u128, Seat<H>>,
    room: u128,
    excluding: Option<u128>,
    id: u128,
)
    requires
        seats.contains_key(id),
        seats[id].room != room,
    ensures
        !recipients(seats, room, excluding).contains(id),
{
}

/// How many times a list of actions asks the registry to unregister.
pub open spec fn unregistrations(actions: Seq<ActionView>) -> nat {
    actions.filter(|a: ActionView| a is Unregister).len()
}

/// Whether a series of events holds a refusal of the registration.
pub open spec fn holds_refusal(events: Seq<Event>) -> bool {
    exists|i: int| 0 <= i < events.len() && events[i] == (Event::RegisterResult { accepted: false })
}

/// Whether a series of events holds the release of the transport.
pub open spec fn holds_stop(events: Seq<Event>) -> bool {
    exists|i: int| 0 <= i < events.len() && events[i] == Event::Stopped
}

/// What one step does to the debt of a session towards the registry: it asks
/// to unregister once at most, only while that is due, and never makes it due
/// again.
proof fn step_settles_once(s: SessionView, event: Event)
    requires
        consistent(s),
    ensures
        consistent(step(s, event).next),
        step(s, event).next.unregister_due ==> s.unregister_due,
        unregistrations(step(s, event).actions) <= 1,
        unregistrations(step(s, event).actions) == 1 ==> s.unregister_due && !step(
            s,
            event,
        ).next.unregister_due,
        event != (Event::RegisterResult { accepted: false }) && s.unregister_due && !step(
            s,
            event,
        ).next.unregister_due ==> unregistrations(step(s, event).actions) == 1,
        event == Event::Stopped ==> !step(s, event).next.unregister_due,
{
    let p = |a: ActionView| a is Unregister;
    let actions = step(s, event).actions;
    reveal_with_fuel(Seq::filter, 4);
    if actions.len() == 0 {
    } else if actions.len() == 1 {
        assert(actions.drop_last() =~= seq![]);
    } else if actions.len() == 2 {
        assert(actions.drop_last().drop_last() =~= seq![]);
    } else {
        assert(actions.len() == 3);
        assert(actions.drop_last().drop_last().drop_last() =~= seq![]);
    }
}

/// A session in a consistent state stays in one, whatever happens to it.
pub proof fn consistency_is_kept(s: SessionView, events: Seq<Event>)
    requires
        consistent(s),
    ensures
        consistent(run(s, events).next),
    decreases events.len(),
{
    if events.len() > 0 {
        step_settles_once(s, events[0]);
        consistency_is_kept(step(s, events[0]).next, events.skip(1));
    }
}

/// A closed session never opens again: whatever happens to it, its phase
/// stays the one in which it ended.
pub proof fn closed_is_final(s: SessionView, events: Seq<Event>)
    requires
        s.phase != Phase::Active,
    ensures
        run(s, events).next.phase == s.phase,
    decreases events.len(),
{
    if events.len() > 0 {
        closed_is_final(step(s, events[0]).next, events.skip(1));
    }
}

/// A closed session that has left the registry asks for nothing any more:
/// it writes no frame, it does not unregister again, and it does not change.
pub proof fn closed_session_is_silent(s: SessionView, events: Seq<Event>)
    requires
        s.phase != Phase::Active,
        !s.unregister_due,
    ensures
        run(s, events).next == s,
        run(s, events).actions == Seq::<ActionView>::empty(),
    decreases events.len(),
{
    if events.len() > 0 {
        assert(step(s, events[0]).next == s);
        closed_session_is_silent(s, events.skip(1));
        assert(run(s, events).actions =~= Seq::<ActionView>::empty());
    }
}

/// A session asks to unregister once at most, and never after it has left
/// the registry.
pub proof fn unregisters_at_most_once(s: SessionView, events: Seq<Event>)
    requires
        consistent(s),
    ensures
        unregistrations(run(s, events).actions) <= 1,
        !s.unregister_due ==> unregistrations(run(s, events).actions) == 0,
        run(s, events).next.unregister_due ==> unregistrations(run(s, events).actions) == 0,
    decreases events.len(),
{
    let p = |a: ActionView| a is Unregister;
    if events.len() > 0 {
        let first = step(s, events[0]);
        step_settles_once(s, events[0]);
        unregisters_at_most_once(first.next, events.skip(1));
        let rest = run(first.next, events.skip(1));
        Seq::filter_distributes_over_add(first.actions, rest.actions, p);
        if !first.next.unregister_due {
            left_stays_left(first.next, events.skip(1));
        }
    }
}

/// A session whose registration is not refused asks to unregister exactly
/// once by the time it has left the registry, whichever way it ends; and it
/// has left the registry once its transport is released.
pub proof fn unregisters_exactly_once(s: SessionView, events: Seq<Event>)
    requires
        consistent(s),
        s.unregister_due,
        !holds_refusal(events),
    ensures
        unregistrations(run(s, events).actions) == if run(s, events).next.unregister_due {
            0nat
        } else {
            1nat
        },
        holds_stop(events) ==> !run(s, events).next.unregister_due,
    decreases events.len(),
{
    let p = |a: ActionView| a is Unregister;
    if events.len() > 0 {
        let first = step(s, events[0]);
        let tail = events.skip(1);
        let rest = run(first.next, tail);
        step_settles_once(s, events[0]);
        Seq::filter_distributes_over_add(first.actions, rest.actions, p);
        assert(!holds_refusal(tail)) by {
            if holds_refusal(tail) {
                let i = choose|i: int|
                    0 <= i < tail.len() && tail[i] == (Event::RegisterResult { accepted: false });
                assert(events[i + 1] == tail[i]);
            }
        }
        if first.next.unregister_due {
            unregisters_exactly_once(first.next, tail);
            if holds_stop(events) {
                let i = choose|i: int| 0 <= i < events.len() && events[i] == Event::Stopped;
                assert(i > 0);
                assert(tail[i - 1] == events[i]);
            }
        } else {
            unregisters_at_most_once(first.next, tail);
            consistency_is_kept(first.next, tail);
            left_stays_left(first.next, tail);
        }
    }
}

/// A session that has left the registry has left it for good.
pub proof fn left_stays_left(s: SessionView, events: Seq<Event>)
    requires
        consistent(s),
        !s.unregister_due,
    ensures
        !run(s, events).next.unregister_due,
    decreases events.len(),
{
    if events.len() > 0 {
        step_settles_once(s, events[0]);
        left_stays_left(step(s, events[0]).next, events.skip(1));
    }
}

/// A session whose peer stays silent for longer than the timeout is evicted
/// at the next heartbeat, though the peer never asked to close: the session
/// leaves the registry, which then holds it in no room, releases its
/// transport, and ends as timed out for good.
pub proof fn silent_session_is_evicted<H>(
    s: SessionView,
    now: u64,
    seats: Map<u128, Seat<H>>,
    room: u128,
    later: Seq<Event>,
)
    requires
        s.phase == Phase::Active,
        expired(s.last_activity, now),
    ensures
        on_heartbeat(s, now).actions.contains(ActionView::Unregister { id: s.id, room: s.room }),
        on_heartbeat(s, now).actions.last() == ActionView::Stop,
        on_heartbeat(s, now).next.phase == Phase::TimedOut,
        !members(after_unregister(seats, s.id), room).contains(s.id),
        run(on_heartbeat(s, now).next, later).next.phase == Phase::TimedOut,
        run(on_heartbeat(s, now).next, later).actions == Seq::<ActionView>::empty(),
{
    let o = on_heartbeat(s, now);
    assert(o.actions[1] == ActionView::Unregister { id: s.id, room: s.room });
    closed_session_is_silent(o.next, later);
}

/// A close request is final. The session acknowledges it, leaves the
/// registry and releases its transport; the registry then sends it nothing,
/// whoever broadcasts; and the session never writes a frame or unregisters
/// again, whatever happens later.
pub proof fn close_is_terminal<H>(
    s: SessionView,
    reason: Option<CloseReasonView>,
    now: u64,
    seats: Map<u128, Seat<H>>,
    room: u128,
    excluding: Option<u128>,
    later: Seq<Event>,
)
    requires
        s.phase == Phase::Active,
    ensures
        on_frame(s, Ok(MessageView::Close(reason)), now).actions == seq![
            ActionView::Close(reason),
            ActionView::Unregister { id: s.id, room: s.room },
            ActionView::Stop,
        ],
        unregistrations(on_frame(s, Ok(MessageView::Close(reason)), now).actions) == 1,
        on_frame(s, Ok(MessageView::Close(reason)), now).next.phase == Phase::ClosedByPeer,
        !recipients(after_unregister(seats, s.id), room, excluding).contains(s.id),
        run(on_frame(s, Ok(MessageView::Close(reason)), now).next, later).actions == Seq::<
            ActionView,
        >::empty(),
        run(on_frame(s, Ok(MessageView::Close(reason)), now).next, later).next.phase
            == Phase::ClosedByPeer,
{
    let o = on_frame(s, Ok(MessageView::Close(reason)), now);
    closed_session_is_silent(o.next, later);
    let p = |a: ActionView| a is Unregister;
    reveal_with_fuel(Seq::filter, 4);
    assert(o.actions.drop_last().drop_last().drop_last() =~= seq![]);
}

} // verus!

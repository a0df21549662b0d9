//! The room registry.
//!
//! The lobby is the one place that knows which sessions exist, which room
//! each belongs to, and by which handle each is reached. Its view is a map
//! from session identifier to [`Seat`]; the members of a room are the
//! sessions whose seat names it, so no session is ever in two rooms.
//!
//! The lobby delivers nothing itself: [`Lobby::broadcast`] returns one
//! [`Delivery`] for each session that is to receive the text, and the owner
//! hands each to its session, independently of the others.
//!
//! Every method takes the lobby by reference, `&mut` where it changes it, so
//! one operation is over before the next begins.

use vstd::prelude::*;
use std::collections::HashMap;

verus! {

broadcast use vstd::std_specs::hash::group_hash_axioms;

/// Where a registered session sits: its room, and the handle by which the
/// owner of the lobby reaches it.
pub struct Seat<H> {
    pub room: u128,
    pub handle: H,
}

/// The members of `room` in a registry.
pub open spec fn members<H>(seats: Map<u128, Seat<H>>, room: u128) -> Set<u128> {
    Set::new(|id: u128| seats.contains_key(id) && seats[id].room == room)
}

/// The sessions that a broadcast to `room` reaches: its members, but for the
/// one that is excluded, if any.
pub open spec fn recipients<H>(seats: Map<u128, Seat<H>>, room: u128, excluding: Option<u128>)
    -> Set<u128> {
    match excluding {
        Some(id) => members(seats, room).remove(id),
        None => members(seats, room),
    }
}

/// The registry after session `id` has registered in `room` with `handle`.
/// An earlier seat of the session is overwritten.
pub open spec fn after_register<H>(seats: Map<u128, Seat<H>>, id: u128, room: u128, handle: H)
    -> Map<u128, Seat<H>> {
    seats.insert(id, Seat { room, handle })
}

/// The registry after session `id` has unregistered.
pub open spec fn after_unregister<H>(seats: Map<u128, Seat<H>>, id: u128) -> Map<u128, Seat<H>> {
    seats.remove(id)
}

/// One text on its way to one session.
pub struct Delivery<'a, H> {
    /// The session that receives the text.
    pub to: u128,
    /// The handle by which that session is reached.
    pub handle: &'a H,
    /// The text.
    pub text: &'a str,
}

/// The sessions that a list of deliveries goes to, in order.
pub open spec fn addressees<H>(deliveries: Seq<Delivery<'_, H>>) -> Seq<u128> {
    deliveries.map_values(|d: Delivery<'_, H>| d.to)
}

/// Whether the index of rooms lists session `id` under `room`.
spec fn listed(rooms: Map<u128, Vec<u128>>, room: u128, id: u128) -> bool {
    rooms.contains_key(room) && rooms[room]@.contains(id)
}

/// Whether the index of rooms is tidy: no list names a session twice, and no
/// room is kept without a session.
spec fn tidy(rooms: Map<u128, Vec<u128>>) -> bool {
    forall|r: u128| #[trigger]
        rooms.contains_key(r) ==> rooms[r]@.no_duplicates() && rooms[r]@.len() > 0
}

/// Whether the index of rooms agrees with the seats: it is tidy, and it lists
/// a session under a room exactly if the session has its seat there.
spec fn index_agrees<H>(seats: Map<u128, Seat<H>>, rooms: Map<u128, Vec<u128>>) -> bool {
    &&& tidy(rooms)
    &&& forall|r: u128, id: u128| #[trigger]
        listed(rooms, r, id) <==> seats.contains_key(id) && seats[id].room == r
}

/// Appending `a` to `s` adds `a` to what `s` holds, and nothing else.
proof fn lemma_push_holds<A>(s: Seq<A>, a: A)
    ensures
        forall|x: A|
            #![trigger s.push(a).contains(x)]
            #![trigger s.contains(x)]
            s.push(a).contains(x) <==> s.contains(x) || x == a,
{
    assert(s.push(a)[s.len() as int] == a);
    assert forall|x: A| s.contains(x) implies s.push(a).contains(x) by {
        let j = choose|j: int| 0 <= j < s.len() && s[j] == x;
        assert(s.push(a)[j] == x);
    }
}

/// Appending to `s` what it does not hold keeps it free of duplicates.
proof fn lemma_push_fresh<A>(s: Seq<A>, a: A)
    requires
        s.no_duplicates(),
        !s.contains(a),
    ensures
        s.push(a).no_duplicates(),
{
    assert forall|i: int, j: int|
        0 <= i < s.len() + 1 && 0 <= j < s.len() + 1 && i != j implies s.push(a)[i] != s.push(
        a,
    )[j] by {
        if i < s.len() {
            assert(s.contains(s[i]));
        }
        if j < s.len() {
            assert(s.contains(s[j]));
        }
    }
}

/// Taking one item out of a list without duplicates removes that item from
/// what the list holds, and nothing else.
proof fn lemma_remove_holds<A>(s: Seq<A>, at: int)
    requires
        s.no_duplicates(),
        0 <= at < s.len(),
    ensures
        s.remove(at).no_duplicates(),
        forall|x: A|
            #![trigger s.remove(at).contains(x)]
            #![trigger s.contains(x)]
            s.remove(at).contains(x) <==> s.contains(x) && x != s[at],
{
    s.remove_ensures(at);
    let t = s.remove(at);
    assert forall|x: A| t.contains(x) <==> s.contains(x) && x != s[at] by {
        if t.contains(x) {
            let j = choose|j: int| 0 <= j < t.len() && t[j] == x;
            if j < at {
                assert(s[j] == x);
            } else {
                assert(s[j + 1] == x);
            }
        }
        if s.contains(x) && x != s[at] {
            let j = choose|j: int| 0 <= j < s.len() && s[j] == x;
            if j < at {
                assert(t[j] == x);
            } else {
                assert(t[j - 1] == x);
            }
        }
    }
}

/// Where `id` stands in `list`.
fn position(list: &Vec<u128>, id: u128) -> (at: usize)
    requires
        list@.contains(id),
    ensures
        at < list.len(),
        list[at as int] == id,
{
    let mut i: usize = 0;
    while i < list.len()
        invariant
            i <= list.len(),
            list@.contains(id),
            forall|j: int| 0 <= j < i ==> list[j] != id,
        decreases list.len() - i,
    {
        if list[i] == id {
            return i;
        }
        i += 1;
    }
    proof {
        let j = choose|j: int| 0 <= j < list@.len() && list@[j] == id;
        assert(list[j] != id);
    }
    0
}

/// Lists `id` under `room`, which does not list it yet.
fn enter_room(rooms: &mut HashMap<u128, Vec<u128>>, room: u128, id: u128)
    requires
        tidy(old(rooms)@),
        !listed(old(rooms)@, room, id),
    ensures
        tidy(final(rooms)@),
        forall|r: u128, x: u128| #[trigger]
            listed(final(rooms)@, r, x) <==> listed(old(rooms)@, r, x) || (r == room && x == id),
{
    let mut list = match rooms.remove(&room) {
        Some(list) => list,
        None => Vec::new(),
    };
    let ghost before = list@;
    list.push(id);
    rooms.insert(room, list);
    proof {
        lemma_push_holds(before, id);
        lemma_push_fresh(before, id);
        assert forall|r: u128, x: u128| #[trigger]
            listed(final(rooms)@, r, x) <==> listed(old(rooms)@, r, x) || (r == room && x
                == id) by {
            if r != room {
                assert(final(rooms)@.contains_key(r) <==> old(rooms)@.contains_key(r));
            }
        }
    }
}

/// Takes `id` off the list of `room`, which lists it, and drops the room if
/// that leaves its list empty.
fn leave_room(rooms: &mut HashMap<u128, Vec<u128>>, room: u128, id: u128)
    requires
        tidy(old(rooms)@),
        listed(old(rooms)@, room, id),
    ensures
        tidy(final(rooms)@),
        forall|r: u128, x: u128| #[trigger]
            listed(final(rooms)@, r, x) <==> listed(old(rooms)@, r, x) && !(r == room && x == id),
{
    match rooms.remove(&room) {
        None => {},
        Some(list) => {
            let mut list = list;
            let ghost before = list@;
            let at = position(&list, id);
            list.remove(at);
            proof {
                lemma_remove_holds(before, at as int);
            }
            if list.len() > 0 {
                rooms.insert(room, list);
            }
            proof {
                assert forall|r: u128, x: u128| #[trigger]
                    listed(final(rooms)@, r, x) <==> listed(old(rooms)@, r, x) && !(r == room
                        && x == id) by {
                    if r != room {
                        assert(final(rooms)@.contains_key(r) <==> old(rooms)@.contains_key(r));
                    }
                }
            }
        },
    }
}

/// The registry of sessions, grouped by room.
pub struct Lobby<H> {
    sessions: HashMap<u128, Seat<H>>,
    rooms: HashMap<u128, Vec<u128>>,
}

impl<H> View for Lobby<H> {
    type V = Map<u128, Seat<H>>;

    closed spec fn view(&self) -> Map<u128, Seat<H>> {
        self.sessions@
    }
}

impl<H> Lobby<H> {
    /// The invariant of the lobby. Every constructor establishes it and every
    /// method keeps it.
    pub closed spec fn wf(&self) -> bool {
        index_agrees(self.sessions@, self.rooms@)
    }

    /// An empty lobby.
    pub fn new() -> (lobby: Self)
        ensures
            lobby.wf(),
            lobby@ == Map::<u128, Seat<H>>::empty(),
    {
        Lobby { sessions: HashMap::new(), rooms: HashMap::new() }
    }

    /// The room in which session `id` is registered, if it is.
    pub fn room_of(&self, id: u128) -> (room: Option<u128>)
        requires
            self.wf(),
        ensures
            room == if self@.contains_key(id) {
                Some(self@[id].room)
            } else {
                None
            },
    {
        match self.sessions.get(&id) {
            Some(seat) => Some(seat.room),
            None => None,
        }
    }

    /// The handle of session `id`, if it is registered.
    pub fn handle_of(&self, id: u128) -> (handle: Option<&H>)
        requires
            self.wf(),
        ensures
            handle == if self@.contains_key(id) {
                Some(&self@[id].handle)
            } else {
                None
            },
    {
        match self.sessions.get(&id) {
            Some(seat) => Some(&seat.handle),
            None => None,
        }
    }

    /// The number of registered sessions.
    pub fn len(&self) -> (n: usize)
        requires
            self.wf(),
        ensures
            n == self@.len(),
    {
        self.sessions.len()
    }

    /// Registers session `id` in `room`, to be reached by `handle`.
    ///
    /// A session that is registered already moves to `room` and is reached by
    /// `handle` from now on: the last registration wins, and the session is
    /// never a member twice.
    pub fn register(&mut self, id: u128, room: u128, handle: H)
        requires
            old(self).wf(),
        ensures
            final(self).wf(),
            final(self)@ == after_register(old(self)@, id, room, handle),
    {
        match self.sessions.insert(id, Seat { room, handle }) {
            None => {
                enter_room(&mut self.rooms, room, id);
            },
            Some(seat) => {
                if seat.room != room {
                    leave_room(&mut self.rooms, seat.room, id);
                    enter_room(&mut self.rooms, room, id);
                }
            },
        }
    }

    /// Unregisters session `id`. Returns whether it was registered.
    ///
    /// `room` is the room that the caller knows the session by. A session has
    /// one seat at most, so it leaves the lobby whichever room holds it, and
    /// is a member of no room afterwards. Unregistering a session that is not
    /// registered changes nothing.
    pub fn unregister(&mut self, id: u128, room: u128) -> (was_registered: bool)
        requires
            old(self).wf(),
        ensures
            final(self).wf(),
            final(self)@ == after_unregister(old(self)@, id),
            was_registered == old(self)@.contains_key(id),
    {
        match self.sessions.remove(&id) {
            None => {
                assert(self.sessions@ =~= old(self).sessions@);
                false
            },
            Some(seat) => {
                leave_room(&mut self.rooms, seat.room, id);
                true
            },
        }
    }

    /// The deliveries that carry `text` to `room`.
    ///
    /// Every member of the room gets one delivery, the sender of the text
    /// among them, unless `excluding` names it. No other session gets any.
    /// Each delivery holds the text and the handle under which its session is
    /// registered. A room without members gives no delivery.
    pub fn broadcast<'a>(&'a self, room: u128, text: &'a str, excluding: Option<u128>) -> (out:
        Vec<Delivery<'a, H>>)
        requires
            self.wf(),
        ensures
            addressees(out@).no_duplicates(),
            addressees(out@).to_set() == recipients(self@, room, excluding),
            forall|i: int|
                0 <= i < out.len() ==> self@.contains_key(#[trigger] out[i].to) && *out[i].handle
                    == self@[out[i].to].handle && out[i].text@ == text@,
    {
        let mut out: Vec<Delivery<'a, H>> = Vec::new();
        match self.rooms.get(&room) {
            None => {},
            Some(list) => {
                let mut i: usize = 0;
                while i < list.len()
                    invariant
                        i <= list.len(),
                        self.wf(),
                        self.rooms@.contains_key(room),
                        *list == self.rooms@[room],
                        addressees(out@).no_duplicates(),
                        forall|k: int|
                            0 <= k < out.len() ==> self@.contains_key(#[trigger] out[k].to)
                                && *out[k].handle == self@[out[k].to].handle && out[k].text@
                                == text@,
                        forall|x: u128|
                            addressees(out@).contains(x) <==> list@.take(i as int).contains(x)
                                && excluding != Some(x),
                    decreases list.len() - i,
                {
                    let id = list[i];
                    let skip = match excluding {
                        Some(x) => x == id,
                        None => false,
                    };
                    proof {
                        assert(list@.take(i + 1) =~= list@.take(i as int).push(id));
                        lemma_push_holds(list@.take(i as int), id);
                        assert(listed(self.rooms@, room, id));
                        assert(!list@.take(i as int).contains(id)) by {
                            if list@.take(i as int).contains(id) {
                                let j = choose|j: int|
                                    0 <= j < i && list@.take(i as int)[j] == id;
                                assert(list@[j] == list@[i as int]);
                            }
                        }
                    }
                    if !skip {
                        match self.sessions.get(&id) {
                            None => {},
                            Some(seat) => {
                                let ghost before = out@;
                                out.push(Delivery { to: id, handle: &seat.handle, text });
                                proof {
                                    assert(addressees(out@) =~= addressees(before).push(id));
                                    lemma_push_holds(addressees(before), id);
                                    lemma_push_fresh(addressees(before), id);
                                }
                            },
                        }
                    }
                    i += 1;
                }
                assert(list@.take(i as int) =~= list@);
            },
        }
        proof {
            assert forall|x: u128|
                addressees(out@).to_set().contains(x) <==> recipients(
                    self@,
                    room,
                    excluding,
                ).contains(x) by {
                assert(listed(self.rooms@, room, x) <==> self@.contains_key(x) && self@[x].room
                    == room);
            }
            assert(addressees(out@).to_set() =~= recipients(self@, room, excluding));
        }
        out
    }

    /// The members of `room`, each once, in no particular order.
    pub fn members(&self, room: u128) -> (ids: Vec<u128>)
        requires
            self.wf(),
        ensures
            ids@.no_duplicates(),
            ids@.to_set() == members(self@, room),
    {
        let mut ids: Vec<u128> = Vec::new();
        match self.rooms.get(&room) {
            None => {},
            Some(list) => {
                let mut i: usize = 0;
                while i < list.len()
                    invariant
                        i <= list.len(),
                        ids@ == list@.take(i as int),
                    decreases list.len() - i,
                {
                    ids.push(list[i]);
                    assert(list@.take(i + 1) =~= list@.take(i as int).push(list[i as int]));
                    i += 1;
                }
                assert(ids@ =~= list@);
            },
        }
        proof {
            assert forall|x: u128| ids@.to_set().contains(x) <==> members(self@, room).contains(
                x,
            ) by {
                assert(listed(self.rooms@, room, x) <==> self@.contains_key(x) && self@[x].room
                    == room);
            }
            assert(ids@.to_set() =~= members(self@, room));
        }
        ids
    }

    /// Whether session `id` is a member of `room`.
    pub fn is_member(&self, id: u128, room: u128) -> (b: bool)
        requires
            self.wf(),
        ensures
            b == members(self@, room).contains(id),
    {
        match self.sessions.get(&id) {
            Some(seat) => seat.room == room,
            None => false,
        }
    }
}

} // verus!

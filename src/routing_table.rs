//! The routing table: authenticated sessions and room memberships.
//!
//! The control actor owns the authoritative table; the routing actor holds a
//! copy of it (a snapshot) that it replaces on every update.

use vstd::prelude::*;
use crate::sink::ClientSink;

verus! {

broadcast use vstd::std_specs::hash::group_hash_axioms;

/// The room every authenticated session joins first.
pub const DEFAULT_ROOM: u32 = 0;

/// Record of an authenticated session.
#[derive(Clone, Debug)]
pub struct Session {
    /// Room the session is a member of.
    pub room_id: u32,
    /// Protocol version the client announced.
    pub version: u32,
    /// Send end of the session's client-bound queue.
    pub sink: ClientSink,
}

/// Failure of a routing table operation.
#[derive(Clone, Copy, Debug, PartialEq, Eq)]
pub enum TableError {
    /// The session id is not in the table.
    UnknownSession(u32),
}

/// Why a packet could not be routed.
#[derive(Clone, Copy, Debug, PartialEq, Eq)]
pub enum RouteError {
    /// The sender is not in the snapshot (it left, or never authenticated).
    UnknownSender(u32),
    /// The voice target selector is not 0 ("speak to own room").
    UnsupportedTarget(u8),
    /// Pings over the voice channel are not supported.
    VoicePing,
}

/// Abstract content of a routing table: the session records by id, and the
/// member set of every room that exists.
pub struct TableModel {
    pub sessions: Map<u32, Session>,
    pub rooms: Map<u32, Set<u32>>,
}

impl TableModel {
    /// The table's invariants: a session's room exists and holds it; every
    /// member of a room is a session that records that room (so no session
    /// is in two rooms).
    pub open spec fn wf(self) -> bool {
        &&& forall|s: u32| #[trigger]
            self.sessions.contains_key(s) ==> {
                &&& self.rooms.contains_key(self.sessions[s].room_id)
                &&& self.rooms[self.sessions[s].room_id].contains(s)
            }
        &&& forall|r: u32, s: u32|
            self.rooms.contains_key(r) && #[trigger] self.rooms[r].contains(s) ==> {
                &&& self.sessions.contains_key(s)
                &&& self.sessions[s].room_id == r
            }
    }

    /// Members of room `r`; empty for a room that does not exist.
    pub open spec fn members(self, r: u32) -> Set<u32> {
        if self.rooms.contains_key(r) {
            self.rooms[r]
        } else {
            Set::empty()
        }
    }

    /// The table with session `id` gone from the session map and from
    /// every room.
    pub open spec fn without(self, id: u32) -> TableModel {
        TableModel {
            sessions: self.sessions.remove(id),
            rooms: self.rooms.map_values(|m: Set<u32>| m.remove(id)),
        }
    }

    /// The table with session `id` recorded as `rec` and a member of
    /// `rec.room_id` only; the room is created if it did not exist.
    pub open spec fn placed(self, id: u32, rec: Session) -> TableModel {
        let base = self.without(id);
        TableModel {
            sessions: base.sessions.insert(id, rec),
            rooms: base.rooms.insert(rec.room_id, base.members(rec.room_id).insert(id)),
        }
    }

    /// Enrolment of session `id` in the default room.
    pub open spec fn enrolled(self, id: u32, version: u32, sink: ClientSink) -> TableModel {
        self.placed(id, Session { room_id: DEFAULT_ROOM, version, sink })
    }

    /// Recipients of a voice packet from `sender` spoken to its own room:
    /// the other members of that room.
    pub open spec fn voice_recipients(self, sender: u32) -> Set<u32> {
        self.members(self.sessions[sender].room_id).remove(sender)
    }

    /// Recipients of a text message from `sender`: every addressed session
    /// that is in the table, and every member of every addressed room, the
    /// sender excepted.
    pub open spec fn text_recipients(self, sender: u32, sessions: Seq<u32>, rooms: Seq<u32>) -> Set<u32> {
        Set::new(
            |s: u32|
                s != sender && ((sessions.contains(s) && self.sessions.contains_key(s)) || exists|
                    r: u32,
                | rooms.contains(r) && #[trigger] self.members(r).contains(s)),
        )
    }

    /// Session `id` moved to room `dest`, keeping its record otherwise.
    pub open spec fn moved(self, id: u32, dest: u32) -> TableModel {
        self.placed(id, Session { room_id: dest, ..self.sessions[id] })
    }
}

/// Removing a session keeps the invariants.
pub proof fn lemma_without_wf(t: TableModel, id: u32)
    requires
        t.wf(),
    ensures
        t.without(id).wf(),
{
}

/// Removing a session that is not in a well-formed table changes nothing.
pub proof fn lemma_without_absent(t: TableModel, id: u32)
    requires
        t.wf(),
        !t.sessions.contains_key(id),
    ensures
        t.without(id) == t,
{
    assert forall|r: u32| #[trigger] t.rooms.contains_key(r) implies t.rooms[r].remove(id)
        == t.rooms[r] by {
        assert(t.rooms[r].remove(id) =~= t.rooms[r]);
    }
    assert(t.without(id).rooms =~= t.rooms);
    assert(t.without(id).sessions =~= t.sessions);
}

/// Placing a session keeps the invariants.
pub proof fn lemma_placed_wf(t: TableModel, id: u32, rec: Session)
    requires
        t.wf(),
    ensures
        t.placed(id, rec).wf(),
{
    lemma_without_wf(t, id);
    let b = t.without(id);
    let p = t.placed(id, rec);
    assert forall|r: u32, s: u32|
        p.rooms.contains_key(r) && #[trigger] p.rooms[r].contains(s) implies {
            &&& p.sessions.contains_key(s)
            &&& p.sessions[s].room_id == r
        } by {
        if r != rec.room_id {
            assert(b.rooms[r].contains(s));
        } else if s != id {
            assert(b.members(r).contains(s));
        }
    }
}

/// Membership in a sequence after a push.
proof fn lemma_push_contains(s: Seq<u32>, m: u32, x: u32)
    ensures
        s.push(m).contains(x) <==> (s.contains(x) || x == m),
{
    if s.push(m).contains(x) {
        let k = choose|k: int| 0 <= k < s.push(m).len() && #[trigger] s.push(m)[k] == x;
        if k < s.len() {
            assert(s[k] == x);
        }
    }
    if s.contains(x) {
        let k = choose|k: int| 0 <= k < s.len() && #[trigger] s[k] == x;
        assert(s.push(m)[k] == x);
    }
    if x == m {
        assert(s.push(m)[s.len() as int] == m);
    }
}

/// Appends `x` to a duplicate-free list unless it is already there.
fn push_unique(out: &mut Vec<u32>, x: u32)
    requires
        old(out)@.no_duplicates(),
    ensures
        final(out)@.no_duplicates(),
        forall|y: u32| #[trigger] final(out)@.contains(y) <==> (old(out)@.contains(y) || y == x),
{
    let mut i: usize = 0;
    while i < out.len()
        invariant
            out@ == old(out)@,
            old(out)@.no_duplicates(),
            i <= out@.len(),
            forall|j: int| 0 <= j < i ==> out@[j] != x,
        decreases out@.len() - i,
    {
        if out[i] == x {
            return;
        }
        i = i + 1;
    }
    let ghost before = out@;
    out.push(x);
    proof {
        assert forall|y: u32| #[trigger] out@.contains(y) <==> (before.contains(y) || y == x) by {
            lemma_push_contains(before, x, y);
        }
        assert forall|a: int, b: int| 0 <= a < out@.len() && 0 <= b < out@.len() && a != b
            implies out@[a] != out@[b] by {
            if a < before.len() && b < before.len() {
                assert(before[a] != before[b]);
            }
        }
    }
}

/// Routing table: session records by id and the members of each room.
#[derive(Debug)]
pub struct RoutingTable {
    sessions: std::collections::HashMap<u32, Session>,
    rooms: std::collections::HashMap<u32, Vec<u32>>,
}

impl View for RoutingTable {
    type V = TableModel;

    closed spec fn view(&self) -> TableModel {
        TableModel {
            sessions: self.sessions@,
            rooms: self.rooms@.map_values(|v: Vec<u32>| v@.to_set()),
        }
    }
}

/// Removes `id` from a duplicate-free member list.
fn remove_member(members: &mut Vec<u32>, id: u32)
    requires
        old(members)@.no_duplicates(),
    ensures
        final(members)@.no_duplicates(),
        final(members)@.to_set() == old(members)@.to_set().remove(id),
{
    let ghost s0 = members@;
    let mut i: usize = 0;
    while i < members.len()
        invariant
            members@ == s0,
            s0 == old(members)@,
            s0.no_duplicates(),
            i <= members@.len(),
            forall|j: int| 0 <= j < i ==> members@[j] != id,
        decreases members@.len() - i,
    {
        if members[i] == id {
            members.remove(i);
            proof {
                let s1 = members@;
                let ii = i as int;
                assert(s1 =~= s0.remove(ii));
                s0.remove_ensures(ii);
                assert(s0[ii] == id);
                assert(s0.no_duplicates());
                assert forall|x: u32| #[trigger] s1.contains(x) <==> s0.to_set().remove(id).contains(x) by {
                    if s1.contains(x) {
                        let k = choose|k: int| 0 <= k < s1.len() && s1[k] == x;
                        if k < ii {
                            assert(s0[k] == x);
                            assert(x != id);
                        } else {
                            assert(s0[k + 1] == x);
                            assert(s0[k + 1] != s0[ii]);
                        }
                        assert(s0.contains(x));
                    }
                    if s0.to_set().remove(id).contains(x) {
                        let k = choose|k: int| 0 <= k < s0.len() && s0[k] == x;
                        if k < ii {
                            assert(s1[k] == x);
                        } else {
                            assert(k != ii);
                            assert(s1[k - 1] == x);
                        }
                    }
                }
                assert(s1.to_set() =~= s0.to_set().remove(id));
                assert forall|a: int, b: int| 0 <= a < s1.len() && 0 <= b < s1.len() && a != b
                    implies s1[a] != s1[b] by {
                    let a0 = if a < ii { a } else { a + 1 };
                    let b0 = if b < ii { b } else { b + 1 };
                    assert(s0[a0] == s1[a] && s0[b0] == s1[b]);
                    assert(s0[a0] != s0[b0]);
                }
            }
            return;
        }
        i = i + 1;
    }
    proof {
        assert(!s0.contains(id));
        assert(members@.to_set() =~= s0.to_set().remove(id));
    }
}

impl RoutingTable {
    /// Well-formedness: the model's invariants, and member lists without
    /// duplicates.
    pub closed spec fn wf(&self) -> bool {
        &&& self@.wf()
        &&& forall|r: u32| #[trigger]
            self.rooms@.contains_key(r) ==> self.rooms@[r]@.no_duplicates()
    }

    /// A well-formed table's model satisfies the table invariants.
    pub proof fn lemma_model_wf(&self)
        requires
            self.wf(),
        ensures
            self@.wf(),
    {
    }

    /// An empty table: no sessions, no rooms.
    pub fn new() -> (t: RoutingTable)
        ensures
            t.wf(),
            t@.sessions == Map::<u32, Session>::empty(),
            t@.rooms == Map::<u32, Set<u32>>::empty(),
    {
        let t = RoutingTable {
            sessions: std::collections::HashMap::new(),
            rooms: std::collections::HashMap::new(),
        };
        assert(t@.rooms =~= Map::<u32, Set<u32>>::empty());
        t
    }

    /// A full copy of the table, as handed to the routing actor.
    pub fn snapshot(&self) -> (r: RoutingTable)
        ensures
            r@ == self@,
            r.wf() == self.wf(),
    {
        RoutingTable { sessions: self.sessions.clone(), rooms: self.rooms.clone() }
    }

    /// Whether session `session_id` is authenticated (present in the table).
    pub fn holds_session(&self, session_id: u32) -> (r: bool)
        ensures
            r == self@.sessions.contains_key(session_id),
    {
        self.sessions.contains_key(&session_id)
    }

    /// Removes session `id` from the member list of room `r`.
    fn leave_room(&mut self, id: u32, r: u32)
        requires
            old(self).wf(),
            old(self)@.sessions.contains_key(id),
            old(self)@.sessions[id].room_id == r,
        ensures
            final(self).sessions@ == old(self).sessions@,
            final(self)@.rooms == old(self)@.rooms.map_values(|m: Set<u32>| m.remove(id)),
            forall|q: u32| #[trigger]
                final(self).rooms@.contains_key(q) ==> final(self).rooms@[q]@.no_duplicates(),
    {
        let ghost old_rooms = self@.rooms;
        let mut members = self.rooms.remove(&r).unwrap();
        remove_member(&mut members, id);
        self.rooms.insert(r, members);
        proof {
            assert forall|q: u32| #[trigger] self@.rooms.contains_key(q) implies self@.rooms[q]
                == old_rooms[q].remove(id) by {
                if q != r {
                    assert(!old_rooms[q].contains(id));
                    assert(old_rooms[q].remove(id) =~= old_rooms[q]);
                }
            }
            assert(self@.rooms =~= old_rooms.map_values(|m: Set<u32>| m.remove(id)));
        }
    }

    /// Adds session `id` to the member list of room `r`, creating the room.
    fn join_room(&mut self, id: u32, r: u32)
        requires
            forall|q: u32| #[trigger]
                old(self).rooms@.contains_key(q) ==> old(self).rooms@[q]@.no_duplicates(),
            !old(self)@.members(r).contains(id),
        ensures
            final(self).sessions@ == old(self).sessions@,
            final(self)@.rooms == old(self)@.rooms.insert(r, old(self)@.members(r).insert(id)),
            forall|q: u32| #[trigger]
                final(self).rooms@.contains_key(q) ==> final(self).rooms@[q]@.no_duplicates(),
    {
        let ghost old_model = self@;
        let mut members = match self.rooms.remove(&r) {
            Some(m) => m,
            None => Vec::new(),
        };
        let ghost before = members@;
        assert(before.to_set() =~= old_model.members(r));
        members.push(id);
        proof {
            before.lemma_push_to_set_commute(id);
            assert(!before.contains(id));
            assert forall|a: int, b: int| 0 <= a < members@.len() && 0 <= b < members@.len() && a != b
                implies members@[a] != members@[b] by {
                if a < before.len() && b < before.len() {
                    assert(before[a] == members@[a] && before[b] == members@[b]);
                } else if a < before.len() {
                    assert(before.contains(members@[a]));
                } else if b < before.len() {
                    assert(before.contains(members@[b]));
                }
            }
        }
        self.rooms.insert(r, members);
        proof {
            assert(self@.rooms =~= old_model.rooms.insert(r, old_model.members(r).insert(id)));
        }
    }

    /// Enrols session `session_id` into the default room with the given
    /// client version and client-bound sink. A session that was already
    /// enrolled is replaced and moved to the default room.
    pub fn enroll_session(&mut self, session_id: u32, version: u32, sender: ClientSink)
        requires
            old(self).wf(),
        ensures
            final(self).wf(),
            final(self)@ == old(self)@.enrolled(session_id, version, sender),
    {
        let ghost t0 = self@;
        if let Some(prev) = self.sessions.get(&session_id) {
            let room = prev.room_id;
            self.leave_room(session_id, room);
        } else {
            proof {
                assert forall|q: u32| #[trigger] t0.rooms.contains_key(q) implies t0.rooms[q]
                    == t0.rooms[q].remove(session_id) by {
                    assert(t0.rooms[q].remove(session_id) =~= t0.rooms[q]);
                }
                assert(t0.rooms =~= t0.rooms.map_values(|m: Set<u32>| m.remove(session_id)));
            }
        }
        let ghost t1 = self@;
        assert(t1.rooms == t0.without(session_id).rooms);
        self.sessions.remove(&session_id);
        self.join_room(session_id, DEFAULT_ROOM);
        self.sessions.insert(session_id, Session { room_id: DEFAULT_ROOM, version, sink: sender });
        proof {
            lemma_placed_wf(t0, session_id, Session { room_id: DEFAULT_ROOM, version, sink: sender });
            assert(self@.sessions =~= t0.enrolled(session_id, version, sender).sessions);
            assert(self@.rooms =~= t0.enrolled(session_id, version, sender).rooms);
        }
    }

    /// Expels session `session_id`: it leaves its room and the session map.
    /// Fails, changing nothing, when the session is not in the table.
    pub fn expel_session(&mut self, session_id: u32) -> (r: Result<(), TableError>)
        requires
            old(self).wf(),
        ensures
            final(self).wf(),
            old(self)@.sessions.contains_key(session_id) ==> r is Ok && final(self)@ == old(
                self,
            )@.without(session_id),
            !old(self)@.sessions.contains_key(session_id) ==> r == Err::<(), TableError>(
                TableError::UnknownSession(session_id),
            ) && final(self)@ == old(self)@,
    {
        let ghost t0 = self@;
        let room = match self.sessions.get(&session_id) {
            Some(s) => s.room_id,
            None => {
                return Err(TableError::UnknownSession(session_id));
            },
        };
        self.leave_room(session_id, room);
        self.sessions.remove(&session_id);
        proof {
            lemma_without_wf(t0, session_id);
            assert(self@.sessions =~= t0.without(session_id).sessions);
        }
        Ok(())
    }

    /// Moves session `session_id` to room `dest_room_id`, creating the room.
    /// Fails, changing nothing, when the session is not in the table.
    pub fn move_session(&mut self, session_id: u32, dest_room_id: u32) -> (r: Result<(), TableError>)
        requires
            old(self).wf(),
        ensures
            final(self).wf(),
            old(self)@.sessions.contains_key(session_id) ==> r is Ok && final(self)@ == old(
                self,
            )@.moved(session_id, dest_room_id),
            !old(self)@.sessions.contains_key(session_id) ==> r == Err::<(), TableError>(
                TableError::UnknownSession(session_id),
            ) && final(self)@ == old(self)@,
    {
        let ghost t0 = self@;
        let orig = match self.sessions.get(&session_id) {
            Some(s) => s.room_id,
            None => {
                return Err(TableError::UnknownSession(session_id));
            },
        };
        let ghost rec0 = t0.sessions[session_id];
        self.leave_room(session_id, orig);
        proof {
            assert(!self@.members(dest_room_id).contains(session_id));
        }
        self.join_room(session_id, dest_room_id);
        let mut rec = self.sessions.remove(&session_id).unwrap();
        rec.room_id = dest_room_id;
        self.sessions.insert(session_id, rec);
        proof {
            let target = Session { room_id: dest_room_id, ..rec0 };
            lemma_placed_wf(t0, session_id, target);
            assert(self@.sessions =~= t0.moved(session_id, dest_room_id).sessions);
            assert(self@.rooms =~= t0.moved(session_id, dest_room_id).rooms);
        }
        Ok(())
    }

    /// The client-bound sink of session `session_id`, if it is enrolled.
    pub fn sender(&self, session_id: u32) -> (r: Option<&ClientSink>)
        ensures
            match r {
                Some(sink) => self@.sessions.contains_key(session_id) && *sink
                    == self@.sessions[session_id].sink,
                None => !self@.sessions.contains_key(session_id),
            },
    {
        match self.sessions.get(&session_id) {
            Some(s) => Some(&s.sink),
            None => None,
        }
    }

    /// The members of room `room_id`, each once, except `exclude`; empty for
    /// a room that does not exist.
    pub fn room_members(&self, room_id: u32, exclude: Option<u32>) -> (r: Vec<u32>)
        ensures
            r@.no_duplicates(),
            r@.to_set() == match exclude {
                Some(x) => self@.members(room_id).remove(x),
                None => self@.members(room_id),
            },
    {
        let mut out: Vec<u32> = Vec::new();
        match self.rooms.get(&room_id) {
            None => {},
            Some(members) => {
                let mut i: usize = 0;
                while i < members.len()
                    invariant
                        i <= members@.len(),
                        out@.no_duplicates(),
                        forall|x: u32| #[trigger]
                            out@.contains(x) <==> (members@.subrange(0, i as int).contains(x)
                                && exclude != Some(x)),
                    decreases members@.len() - i,
                {
                    let m = members[i];
                    let keep = match exclude {
                        Some(x) => x != m,
                        None => true,
                    };
                    if keep {
                        push_unique(&mut out, m);
                    }
                    proof {
                        let pre = members@.subrange(0, i as int);
                        assert(members@.subrange(0, i + 1) =~= pre.push(m));
                        assert forall|x: u32| #[trigger]
                            out@.contains(x) <==> (members@.subrange(0, i + 1).contains(x)
                                && exclude != Some(x)) by {
                            lemma_push_contains(pre, m, x);
                        }
                    }
                    i = i + 1;
                }
                proof {
                    assert(members@.subrange(0, members@.len() as int) =~= members@);
                }
            },
        }
        proof {
            let want = match exclude {
                Some(x) => self@.members(room_id).remove(x),
                None => self@.members(room_id),
            };
            assert(out@.to_set() =~= want);
        }
        out
    }

    /// Recipients of a voice packet from `sender_id` with target selector
    /// `target`: for selector 0, the other members of the sender's room.
    /// Fails when the sender is not in the table, or for any other selector.
    pub fn voice_targets(&self, sender_id: u32, target: u8) -> (r: Result<Vec<u32>, RouteError>)
        ensures
            !self@.sessions.contains_key(sender_id) ==> r == Err::<Vec<u32>, RouteError>(
                RouteError::UnknownSender(sender_id),
            ),
            self@.sessions.contains_key(sender_id) && target != 0 ==> r == Err::<
                Vec<u32>,
                RouteError,
            >(RouteError::UnsupportedTarget(target)),
            self@.sessions.contains_key(sender_id) && target == 0 ==> r is Ok,
            r matches Ok(v) ==> v@.no_duplicates() && v@.to_set() == self@.voice_recipients(
                sender_id,
            ),
    {
        let room = match self.sessions.get(&sender_id) {
            Some(s) => s.room_id,
            None => {
                return Err(RouteError::UnknownSender(sender_id));
            },
        };
        if target != 0 {
            return Err(RouteError::UnsupportedTarget(target));
        }
        Ok(self.room_members(room, Some(sender_id)))
    }

    /// Recipients of a text message from `sender_id` addressed to the
    /// sessions `sessions` and the rooms `rooms`, each once. Addressed
    /// sessions and rooms that are not in the table are skipped.
    pub fn text_targets(&self, sender_id: u32, sessions: &Vec<u32>, rooms: &Vec<u32>) -> (r: Vec<u32>)
        ensures
            r@.no_duplicates(),
            r@.to_set() == self@.text_recipients(sender_id, sessions@, rooms@),
    {
        let mut out: Vec<u32> = Vec::new();
        let mut i: usize = 0;
        while i < sessions.len()
            invariant
                i <= sessions@.len(),
                out@.no_duplicates(),
                forall|x: u32| #[trigger]
                    out@.contains(x) <==> (x != sender_id && sessions@.subrange(0, i as int).contains(
                        x,
                    ) && self@.sessions.contains_key(x)),
            decreases sessions@.len() - i,
        {
            let s = sessions[i];
            let ghost before = out@;
            if s != sender_id && self.holds_session(s) {
                push_unique(&mut out, s);
            }
            proof {
                let pre = sessions@.subrange(0, i as int);
                assert(sessions@.subrange(0, i + 1) =~= pre.push(s));
                assert forall|x: u32| #[trigger]
                    out@.contains(x) <==> (x != sender_id && sessions@.subrange(0, i + 1).contains(x)
                        && self@.sessions.contains_key(x)) by {
                    lemma_push_contains(pre, s, x);
                }
            }
            i = i + 1;
        }
        assert(sessions@.subrange(0, sessions@.len() as int) =~= sessions@);
        let mut j: usize = 0;
        while j < rooms.len()
            invariant
                j <= rooms@.len(),
                i == sessions@.len(),
                out@.no_duplicates(),
                forall|x: u32| #[trigger]
                    out@.contains(x) <==> (x != sender_id && ((sessions@.contains(x)
                        && self@.sessions.contains_key(x)) || exists|r: u32|
                        rooms@.subrange(0, j as int).contains(r) && #[trigger] self@.members(
                            r,
                        ).contains(x))),
            decreases rooms@.len() - j,
        {
            let room = rooms[j];
            let ms = self.room_members(room, Some(sender_id));
            let ghost mid = out@;
            let mut k: usize = 0;
            while k < ms.len()
                invariant
                    k <= ms@.len(),
                    out@.no_duplicates(),
                    forall|x: u32| #[trigger]
                        out@.contains(x) <==> (mid.contains(x) || ms@.subrange(0, k as int).contains(x)),
                decreases ms@.len() - k,
            {
                let m = ms[k];
                push_unique(&mut out, m);
                proof {
                    let pre = ms@.subrange(0, k as int);
                    assert(ms@.subrange(0, k + 1) =~= pre.push(m));
                    assert forall|x: u32| #[trigger]
                        out@.contains(x) <==> (mid.contains(x) || ms@.subrange(0, k + 1).contains(x)) by {
                        lemma_push_contains(pre, m, x);
                    }
                }
                k = k + 1;
            }
            proof {
                assert(ms@.subrange(0, ms@.len() as int) =~= ms@);
                let pre = rooms@.subrange(0, j as int);
                assert(rooms@.subrange(0, j + 1) =~= pre.push(room));
                assert forall|x: u32| #[trigger]
                    out@.contains(x) <==> (x != sender_id && ((sessions@.contains(x)
                        && self@.sessions.contains_key(x)) || exists|r: u32|
                        rooms@.subrange(0, j + 1).contains(r) && #[trigger] self@.members(
                            r,
                        ).contains(x))) by {
                    assert(ms@.contains(x) == ms@.to_set().contains(x));
                    if exists|r: u32|
                        rooms@.subrange(0, j + 1).contains(r) && #[trigger] self@.members(r).contains(x) {
                        let r = choose|r: u32|
                            rooms@.subrange(0, j + 1).contains(r) && #[trigger] self@.members(r).contains(x);
                        lemma_push_contains(pre, room, r);
                    }
                    if exists|r: u32| pre.contains(r) && #[trigger] self@.members(r).contains(x) {
                        let r = choose|r: u32| pre.contains(r) && #[trigger] self@.members(r).contains(x);
                        lemma_push_contains(pre, room, r);
                    }
                    lemma_push_contains(pre, room, room);
                }
            }
            j = j + 1;
        }
        proof {
            assert(rooms@.subrange(0, rooms@.len() as int) =~= rooms@);
            assert(out@.to_set() =~= self@.text_recipients(sender_id, sessions@, rooms@));
        }
        out
    }
}

} // verus!

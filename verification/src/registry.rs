//! Session registry: the single shared piece of mutable process state.
//!
//! It holds the connection context's readiness, the ordered list of known
//! rooms, and at most one active voice session per room.  The caller is
//! expected to hold one exclusive lock around every call, so each operation
//! here is one atomic transaction on the shared state; the contracts say
//! exactly which map the session table becomes, so no caller ever observes a
//! half-applied mutation.
use vstd::prelude::*;

verus! {

/// One active voice session: the room it belongs to, the opaque handle token
/// the voice collaborator gave out for it, and the flags the commands read
/// and write.  The registry is the only writer of the flags, so they mirror
/// the collaborator's own state.
#[derive(Clone, Copy, PartialEq, Eq, Structural, Debug)]
pub struct Session {
    pub room: u64,
    pub handle: u64,
    pub muted: bool,
    pub deafened: bool,
}

/// The session a room holds right after a join: the collaborator's handle
/// with both flags clear.
pub open spec fn fresh_session(room: u64, handle: u64) -> Session {
    Session { room, handle, muted: false, deafened: false }
}

/// The session table as a map from room identifier to session.  Later
/// entries of the sequence win; under `unique_rooms` there is no overlap.
pub open spec fn sessions_map(s: Seq<Session>) -> Map<u64, Session>
    decreases s.len(),
{
    if s.len() == 0 {
        Map::empty()
    } else {
        sessions_map(s.drop_last()).insert(s.last().room, s.last())
    }
}

/// No two entries of the sequence belong to the same room.
pub open spec fn unique_rooms(s: Seq<Session>) -> bool {
    forall|i: int, j: int|
        0 <= i < j < s.len() ==> s[i].room != s[j].room
}

/// The sequence with every entry of the given room dropped.
pub open spec fn without_room(s: Seq<Session>, room: u64) -> Seq<Session>
    decreases s.len(),
{
    if s.len() == 0 {
        Seq::empty()
    } else {
        let rest = without_room(s.drop_last(), room);
        if s.last().room == room {
            rest
        } else {
            rest.push(s.last())
        }
    }
}

/// An entry of the sequence is in the map; with unique rooms it is the value
/// its room maps to.
pub proof fn lemma_sessions_map_index(s: Seq<Session>, i: int)
    requires
        unique_rooms(s),
        0 <= i < s.len(),
    ensures
        sessions_map(s).contains_key(s[i].room),
        sessions_map(s)[s[i].room] == s[i],
    decreases s.len(),
{
    if i == s.len() - 1 {
    } else {
        lemma_sessions_map_index(s.drop_last(), i);
    }
}

/// A room that no entry of the sequence belongs to is not in the map.
pub proof fn lemma_sessions_map_absent(s: Seq<Session>, room: u64)
    requires
        forall|i: int| 0 <= i < s.len() ==> s[i].room != room,
    ensures
        !sessions_map(s).contains_key(room),
    decreases s.len(),
{
    if s.len() > 0 {
        lemma_sessions_map_absent(s.drop_last(), room);
    }
}

/// Dropping a room from the sequence removes exactly that key from the map,
/// keeps the remaining rooms unique, and invents no entry.
pub proof fn lemma_without_room(s: Seq<Session>, room: u64)
    requires
        unique_rooms(s),
    ensures
        unique_rooms(without_room(s, room)),
        forall|i: int|
            0 <= i < without_room(s, room).len() ==> without_room(s, room)[i].room != room,
        forall|i: int|
            0 <= i < without_room(s, room).len() ==> s.contains(#[trigger] without_room(s, room)[i]),
        sessions_map(without_room(s, room)) == sessions_map(s).remove(room),
    decreases s.len(),
{
    if s.len() == 0 {
        assert(sessions_map(without_room(s, room)) =~= sessions_map(s).remove(room));
    } else {
        lemma_without_room(s.drop_last(), room);
        let rest = without_room(s.drop_last(), room);
        let x = s.last();
        assert forall|i: int| 0 <= i < rest.len() implies s.contains(rest[i]) by {
            let k = choose|k: int|
                0 <= k < s.drop_last().len() && s.drop_last()[k] == rest[i];
            assert(s[k] == rest[i]);
        }
        assert forall|i: int| 0 <= i < rest.len() implies rest[i].room != x.room || x.room
            == room by {
            if x.room != room {
                let k = choose|k: int|
                    0 <= k < s.drop_last().len() && s.drop_last()[k] == rest[i];
                assert(s[k] == rest[i]);
                assert(s[k].room != s[s.len() - 1].room);
            }
        }
        if x.room == room {
            assert(forall|i: int| 0 <= i < s.drop_last().len() ==> s.drop_last()[i] == s[i]);
            assert(sessions_map(without_room(s, room)) =~= sessions_map(s).remove(room));
        } else {
            assert(rest.push(x).drop_last() =~= rest);
            assert(sessions_map(rest.push(x)) == sessions_map(rest).insert(x.room, x));
            assert(sessions_map(without_room(s, room)) =~= sessions_map(s).remove(room));
            assert(forall|i: int|
                0 <= i < rest.len() ==> #[trigger] rest.push(x)[i] == rest[i]);
            assert(rest.push(x)[rest.len() as int] == x);
            assert(s.contains(x)) by {
                assert(s[s.len() - 1] == x);
            }
            assert forall|i: int, j: int|
                0 <= i < j < rest.push(x).len() implies rest.push(x)[i].room != rest.push(
                x,
            )[j].room by {
                if j < rest.len() {
                    assert(rest[i].room != rest[j].room);
                } else {
                    assert(rest.push(x)[j] == x);
                    assert(rest[i].room != x.room);
                }
            }
        }
    }
}

/// The shared registry: whether the connection context is set, the known
/// rooms in discovery order, and the active sessions, one per room at most.
pub struct Registry {
    ready: bool,
    rooms: Vec<u64>,
    sessions: Vec<Session>,
}

/// Where the scan for an already-joined room ends: the first known room that
/// holds an active session.
#[derive(Clone, Copy, PartialEq, Eq, Structural, Debug)]
pub enum ActiveSearch {
    /// The connection context is not set yet; nothing can be discovered.
    NotReady,
    /// The context is set but no known room holds a session.
    NoActive,
    /// The first known room holding a session, in known-room order.
    Found { room: u64 },
}

impl Registry {
    /// Whether the connection context has been set.
    pub closed spec fn spec_ready(self) -> bool {
        self.ready
    }

    /// The known rooms, in the order the connection context reported them.
    pub closed spec fn spec_rooms(self) -> Seq<u64> {
        self.rooms@
    }

    /// The active sessions, keyed by room.
    pub closed spec fn spec_sessions(self) -> Map<u64, Session> {
        sessions_map(self.sessions@)
    }

    /// Well-formedness: at most one stored session per room, and every entry
    /// filed under its own room.
    pub closed spec fn wf(self) -> bool {
        unique_rooms(self.sessions@)
    }

    /// A fresh registry: not ready, no rooms, no sessions.
    pub fn new() -> (r: Registry)
        ensures
            r.wf(),
            !r.spec_ready(),
            r.spec_rooms() == Seq::<u64>::empty(),
            r.spec_sessions() == Map::<u64, Session>::empty(),
    {
        Registry { ready: false, rooms: Vec::new(), sessions: Vec::new() }
    }

    /// Sets the connection context: marks the registry ready and replaces the
    /// known-room list wholesale.  The session table is untouched.
    pub fn set_connection_context(&mut self, rooms: Vec<u64>)
        requires
            old(self).wf(),
        ensures
            final(self).wf(),
            final(self).spec_ready(),
            final(self).spec_rooms() == rooms@,
            final(self).spec_sessions() == old(self).spec_sessions(),
    {
        self.ready = true;
        self.rooms = rooms;
    }

    /// Looks up the session of a room; returns it exactly when the table
    /// holds one.
    pub fn get(&self, room: u64) -> (r: Option<Session>)
        requires
            self.wf(),
        ensures
            match r {
                Some(s) => self.spec_sessions().contains_key(room)
                    && s == self.spec_sessions()[room] && s.room == room,
                None => !self.spec_sessions().contains_key(room),
            },
    {
        let n = self.sessions.len();
        let mut i: usize = 0;
        while i < n
            invariant
                i <= n,
                forall|j: int| 0 <= j < i ==> self.sessions@[j].room != room,
            decreases n - i,
        {
            if self.sessions[i].room == room {
                proof {
                    lemma_sessions_map_index(self.sessions@, i as int);
                }
                return Some(self.sessions[i]);
            }
            i = i + 1;
        }
        proof {
            lemma_sessions_map_absent(self.sessions@, room);
        }
        None
    }

    /// Stores a session under its room, replacing whatever the room held
    /// before.  Readiness and the known rooms are untouched.
    pub fn put(&mut self, s: Session)
        requires
            old(self).wf(),
        ensures
            final(self).wf(),
            final(self).spec_sessions() == old(self).spec_sessions().insert(s.room, s),
            final(self).spec_ready() == old(self).spec_ready(),
            final(self).spec_rooms() == old(self).spec_rooms(),
    {
        self.remove(s.room);
        proof {
            let prior = self.sessions@;
            assert forall|i: int| 0 <= i < prior.len() implies prior[i].room != s.room by {
                lemma_sessions_map_index(prior, i);
            }
            assert(prior.push(s).drop_last() =~= prior);
            assert(sessions_map(prior.push(s))
                == sessions_map(prior).insert(s.room, s));
            assert(sessions_map(prior).insert(s.room, s)
                =~= old(self).spec_sessions().insert(s.room, s));
            assert(forall|i: int|
                0 <= i < prior.len() ==> #[trigger] prior.push(s)[i] == prior[i]);
            assert(prior.push(s)[prior.len() as int] == s);
            assert forall|i: int, j: int|
                0 <= i < j < prior.push(s).len() implies prior.push(s)[i].room != prior.push(
                s,
            )[j].room by {
                if j < prior.len() {
                    assert(prior[i].room != prior[j].room);
                } else {
                    assert(prior[i].room != s.room);
                }
            }
        }
        self.sessions.push(s);
    }

    /// Removes the session of a room, if any.  Readiness and the known rooms
    /// are untouched.
    pub fn remove(&mut self, room: u64)
        requires
            old(self).wf(),
        ensures
            final(self).wf(),
            final(self).spec_sessions() == old(self).spec_sessions().remove(room),
            final(self).spec_ready() == old(self).spec_ready(),
            final(self).spec_rooms() == old(self).spec_rooms(),
    {
        let n = self.sessions.len();
        let mut out: Vec<Session> = Vec::new();
        let mut i: usize = 0;
        while i < n
            invariant
                i <= n,
                out@ == without_room(self.sessions@.take(i as int), room),
            decreases n - i,
        {
            let s = self.sessions[i];
            proof {
                assert(self.sessions@.take(i + 1 as int).drop_last()
                    =~= self.sessions@.take(i as int));
                assert(self.sessions@.take(i + 1 as int).last() == self.sessions@[i as int]);
            }
            if s.room != room {
                out.push(s);
            }
            i = i + 1;
        }
        proof {
            assert(self.sessions@.take(n as int) =~= self.sessions@);
            lemma_without_room(self.sessions@, room);
        }
        self.sessions = out;
    }

    /// Whether the known room at position `i` holds an active session.
    pub open spec fn active_at(self, i: int) -> bool {
        self.spec_sessions().contains_key(self.spec_rooms()[i])
    }

    /// Whether `room` is the first known room, in known-room order, that
    /// holds an active session.
    pub open spec fn first_active_room(self, room: u64) -> bool {
        exists|i: int|
            0 <= i < self.spec_rooms().len() && room == self.spec_rooms()[i] && self.active_at(i)
                && (forall|j: int| 0 <= j < i ==> !self.active_at(j))
    }

    /// Scans the known rooms in order and reports the first one that holds an
    /// active session; `NotReady` before the connection context is set, and
    /// `NoActive` when no known room is joined.
    pub fn find_active_session(&self) -> (r: ActiveSearch)
        requires
            self.wf(),
        ensures
            match r {
                ActiveSearch::NotReady => !self.spec_ready(),
                ActiveSearch::NoActive => self.spec_ready() && forall|j: int|
                    0 <= j < self.spec_rooms().len() ==> !self.active_at(j),
                ActiveSearch::Found { room } => self.spec_ready() && self.first_active_room(room)
                    && self.spec_sessions().contains_key(room),
            },
    {
        if !self.ready {
            return ActiveSearch::NotReady;
        }
        let n = self.rooms.len();
        let mut i: usize = 0;
        while i < n
            invariant
                i <= n,
                forall|j: int| 0 <= j < i ==> !self.active_at(j),
            decreases n - i,
        {
            let room = self.rooms[i];
            if self.get(room).is_some() {
                proof {
                    let w = i as int;
                    assert(self.active_at(w));
                    assert(0 <= w < self.spec_rooms().len() && room == self.spec_rooms()[w]
                        && self.active_at(w) && (forall|j: int| 0 <= j < w ==> !self.active_at(j)));
                }
                return ActiveSearch::Found { room };
            }
            i = i + 1;
        }
        ActiveSearch::NoActive
    }
}

} // verus!

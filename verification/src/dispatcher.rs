//! Command dispatcher: every soundboard command as one transaction against
//! the session registry.
//!
//! Each command resolves its target session, validates its preconditions,
//! performs at most one registry mutation, and reports a reply; the reply
//! enums carry exactly the distinctions the user-facing messages make, and a
//! message builder turns each reply into the text the command sources print.
use vstd::prelude::*;

use crate::registry::{ActiveSearch, Registry, Session, fresh_session};
use crate::resolver::matches_fragment;
use crate::resolver::resolve;

verus! {

/// Reply of a command that sets a flag (mute, deafen): set-guarded, so an
/// already-set flag is reported distinctly from the success case.
#[derive(Clone, Copy, PartialEq, Eq, Structural, Debug)]
pub enum FlagReply {
    /// The room holds no active session.
    NoSession,
    /// The flag was already set; nothing was changed.
    AlreadySet,
    /// The flag has been set.
    NowSet,
}

/// Reply of a join command.
#[derive(Clone, Copy, PartialEq, Eq, Structural, Debug)]
pub enum JoinReply {
    /// The room already held a session; it is kept unchanged.
    AlreadyJoined,
    /// A fresh session has been stored for the room.
    Joined,
}

/// Reply of a leave command.
#[derive(Clone, Copy, PartialEq, Eq, Structural, Debug)]
pub enum LeaveReply {
    /// The room held no session to leave.
    NotInVoice,
    /// The room's session has been removed.
    Left,
}

/// Reply of the chat-side play command, which targets the invoking room.
#[derive(Clone, Copy, PartialEq, Eq, Structural, Debug)]
pub enum PlayReply {
    /// No file name matches the fragment.
    NoMatch,
    /// A file matches but the room holds no active session.
    NoSession,
    /// Stream the file at this index of the listing into the room's session.
    Stream { index: usize },
}

/// Reply of the console-side play command, which discovers its room by
/// scanning the known rooms for the first active session.
#[derive(Clone, Copy, PartialEq, Eq, Structural, Debug)]
pub enum ConsolePlayReply {
    /// No file name matches the fragment.
    NoMatch,
    /// The connection context is not set yet.
    NotReady,
    /// No known room holds an active session.
    NoActive,
    /// Stream the file at this index into the discovered room's session.
    Stream { room: u64, index: usize },
}

/// The session table after a join: unchanged when the room already holds a
/// session (re-joining is idempotent), else extended by a fresh session.
pub open spec fn joined(m: Map<u64, Session>, room: u64, handle: u64) -> Map<u64, Session> {
    if m.contains_key(room) {
        m
    } else {
        m.insert(room, fresh_session(room, handle))
    }
}

/// The session table after a leave: the room's session is gone.
pub open spec fn left(m: Map<u64, Session>, room: u64) -> Map<u64, Session> {
    m.remove(room)
}

/// What a mute command reports on a given table.
pub open spec fn mute_result(m: Map<u64, Session>, room: u64) -> FlagReply {
    if !m.contains_key(room) {
        FlagReply::NoSession
    } else if m[room].muted {
        FlagReply::AlreadySet
    } else {
        FlagReply::NowSet
    }
}

/// The session table after a mute command.
pub open spec fn mute_post(m: Map<u64, Session>, room: u64) -> Map<u64, Session> {
    if m.contains_key(room) && !m[room].muted {
        m.insert(room, Session { muted: true, ..m[room] })
    } else {
        m
    }
}

/// What an unmute command reports: clear-unconditional, so it succeeds
/// whenever the room holds a session, muted or not.
pub open spec fn unmute_result(m: Map<u64, Session>, room: u64) -> FlagReply {
    if m.contains_key(room) {
        FlagReply::NowSet
    } else {
        FlagReply::NoSession
    }
}

/// The session table after an unmute command.
pub open spec fn unmute_post(m: Map<u64, Session>, room: u64) -> Map<u64, Session> {
    if m.contains_key(room) {
        m.insert(room, Session { muted: false, ..m[room] })
    } else {
        m
    }
}

/// What a deafen command reports on a given table.
pub open spec fn deafen_result(m: Map<u64, Session>, room: u64) -> FlagReply {
    if !m.contains_key(room) {
        FlagReply::NoSession
    } else if m[room].deafened {
        FlagReply::AlreadySet
    } else {
        FlagReply::NowSet
    }
}

/// The session table after a deafen command.
pub open spec fn deafen_post(m: Map<u64, Session>, room: u64) -> Map<u64, Session> {
    if m.contains_key(room) && !m[room].deafened {
        m.insert(room, Session { deafened: true, ..m[room] })
    } else {
        m
    }
}

/// What an undeafen command reports: clear-unconditional, like unmute.
pub open spec fn undeafen_result(m: Map<u64, Session>, room: u64) -> FlagReply {
    if m.contains_key(room) {
        FlagReply::NowSet
    } else {
        FlagReply::NoSession
    }
}

/// The session table after an undeafen command.
pub open spec fn undeafen_post(m: Map<u64, Session>, room: u64) -> Map<u64, Session> {
    if m.contains_key(room) {
        m.insert(room, Session { deafened: false, ..m[room] })
    } else {
        m
    }
}

/// Joins a room: stores the collaborator's fresh handle unless the room
/// already holds a session, which is then kept (idempotent re-join).  The
/// caller obtains `handle` from the voice collaborator first, so a failed
/// collaborator join never leaves a half-stored entry.
pub fn join(reg: &mut Registry, room: u64, handle: u64) -> (r: JoinReply)
    requires
        old(reg).wf(),
    ensures
        final(reg).wf(),
        final(reg).spec_sessions() == joined(old(reg).spec_sessions(), room, handle),
        final(reg).spec_ready() == old(reg).spec_ready(),
        final(reg).spec_rooms() == old(reg).spec_rooms(),
        r == (if old(reg).spec_sessions().contains_key(room) {
            JoinReply::AlreadyJoined
        } else {
            JoinReply::Joined
        }),
{
    match reg.get(room) {
        Some(_) => JoinReply::AlreadyJoined,
        None => {
            reg.put(Session { room, handle, muted: false, deafened: false });
            JoinReply::Joined
        },
    }
}

/// Leaves a room: removes its session; with no session to remove it only
/// reports so, it is not an error.
pub fn leave(reg: &mut Registry, room: u64) -> (r: LeaveReply)
    requires
        old(reg).wf(),
    ensures
        final(reg).wf(),
        final(reg).spec_sessions() == left(old(reg).spec_sessions(), room),
        final(reg).spec_ready() == old(reg).spec_ready(),
        final(reg).spec_rooms() == old(reg).spec_rooms(),
        r == (if old(reg).spec_sessions().contains_key(room) {
            LeaveReply::Left
        } else {
            LeaveReply::NotInVoice
        }),
{
    match reg.get(room) {
        Some(_) => {
            reg.remove(room);
            LeaveReply::Left
        },
        None => {
            proof {
                assert(old(reg).spec_sessions().remove(room) =~= old(reg).spec_sessions());
            }
            LeaveReply::NotInVoice
        },
    }
}

/// Mutes a room's session; an already-muted session is reported distinctly
/// and left unchanged.
pub fn mute(reg: &mut Registry, room: u64) -> (r: FlagReply)
    requires
        old(reg).wf(),
    ensures
        final(reg).wf(),
        r == mute_result(old(reg).spec_sessions(), room),
        final(reg).spec_sessions() == mute_post(old(reg).spec_sessions(), room),
        final(reg).spec_ready() == old(reg).spec_ready(),
        final(reg).spec_rooms() == old(reg).spec_rooms(),
{
    match reg.get(room) {
        None => FlagReply::NoSession,
        Some(s) => {
            if s.muted {
                FlagReply::AlreadySet
            } else {
                reg.put(Session { muted: true, ..s });
                FlagReply::NowSet
            }
        },
    }
}

/// Unmutes a room's session unconditionally: clearing an already-clear flag
/// still reports success.
pub fn unmute(reg: &mut Registry, room: u64) -> (r: FlagReply)
    requires
        old(reg).wf(),
    ensures
        final(reg).wf(),
        r == unmute_result(old(reg).spec_sessions(), room),
        final(reg).spec_sessions() == unmute_post(old(reg).spec_sessions(), room),
        final(reg).spec_ready() == old(reg).spec_ready(),
        final(reg).spec_rooms() == old(reg).spec_rooms(),
{
    match reg.get(room) {
        None => FlagReply::NoSession,
        Some(s) => {
            reg.put(Session { muted: false, ..s });
            FlagReply::NowSet
        },
    }
}

/// Deafens a room's session; an already-deafened session is reported
/// distinctly and left unchanged.
pub fn deafen(reg: &mut Registry, room: u64) -> (r: FlagReply)
    requires
        old(reg).wf(),
    ensures
        final(reg).wf(),
        r == deafen_result(old(reg).spec_sessions(), room),
        final(reg).spec_sessions() == deafen_post(old(reg).spec_sessions(), room),
        final(reg).spec_ready() == old(reg).spec_ready(),
        final(reg).spec_rooms() == old(reg).spec_rooms(),
{
    match reg.get(room) {
        None => FlagReply::NoSession,
        Some(s) => {
            if s.deafened {
                FlagReply::AlreadySet
            } else {
                reg.put(Session { deafened: true, ..s });
                FlagReply::NowSet
            }
        },
    }
}

/// Undeafens a room's session unconditionally, like unmute.
pub fn undeafen(reg: &mut Registry, room: u64) -> (r: FlagReply)
    requires
        old(reg).wf(),
    ensures
        final(reg).wf(),
        r == undeafen_result(old(reg).spec_sessions(), room),
        final(reg).spec_sessions() == undeafen_post(old(reg).spec_sessions(), room),
        final(reg).spec_ready() == old(reg).spec_ready(),
        final(reg).spec_rooms() == old(reg).spec_rooms(),
{
    match reg.get(room) {
        None => FlagReply::NoSession,
        Some(s) => {
            reg.put(Session { deafened: false, ..s });
            FlagReply::NowSet
        },
    }
}

/// Records that the voice collaborator rejected a mute the dispatcher had
/// decided on: the muted flag returns to clear, so the registry never keeps a
/// half-applied mute.  The caller uses it after `mute` reported success but
/// the collaborator call failed.
pub fn mute_failed(reg: &mut Registry, room: u64)
    requires
        old(reg).wf(),
    ensures
        final(reg).wf(),
        final(reg).spec_sessions() == unmute_post(old(reg).spec_sessions(), room),
        final(reg).spec_ready() == old(reg).spec_ready(),
        final(reg).spec_rooms() == old(reg).spec_rooms(),
{
    match reg.get(room) {
        None => {
        },
        Some(s) => {
            reg.put(Session { muted: false, ..s });
        },
    }
}

/// Records that the voice collaborator rejected a deafen, like `mute_failed`.
pub fn deafen_failed(reg: &mut Registry, room: u64)
    requires
        old(reg).wf(),
    ensures
        final(reg).wf(),
        final(reg).spec_sessions() == undeafen_post(old(reg).spec_sessions(), room),
        final(reg).spec_ready() == old(reg).spec_ready(),
        final(reg).spec_rooms() == old(reg).spec_rooms(),
{
    match reg.get(room) {
        None => {
        },
        Some(s) => {
            reg.put(Session { deafened: false, ..s });
        },
    }
}

/// A rolled-back mute restores the session table exactly: on a table where
/// the mute acted (session present, flag clear), the failure transition
/// brings the table back to what it was, leaving no half-updated entry.
pub proof fn lemma_mute_rollback_restores(m: Map<u64, Session>, room: u64)
    requires
        m.contains_key(room),
        !m[room].muted,
    ensures
        unmute_post(mute_post(m, room), room) == m,
{
    assert(unmute_post(mute_post(m, room), room) =~= m);
}

/// A rolled-back deafen restores the session table exactly, like a rolled-back
/// mute.
pub proof fn lemma_deafen_rollback_restores(m: Map<u64, Session>, room: u64)
    requires
        m.contains_key(room),
        !m[room].deafened,
    ensures
        undeafen_post(deafen_post(m, room), room) == m,
{
    assert(undeafen_post(deafen_post(m, room), room) =~= m);
}

/// The chat-side play command: resolves the fragment against the listing
/// first, then requires an active session for the invoking room.  The
/// dispatcher only decides; the caller streams the chosen file and reports a
/// collaborator failure itself.
pub fn play_in_room(reg: &Registry, room: u64, fragment: &str, files: &Vec<String>) -> (r:
    PlayReply)
    requires
        reg.wf(),
    ensures
        match r {
            PlayReply::NoMatch => forall|j: int|
                0 <= j < files@.len() ==> !matches_fragment(files@[j]@, fragment@),
            PlayReply::NoSession => !reg.spec_sessions().contains_key(room) && exists|j: int|
                0 <= j < files@.len() && matches_fragment(files@[j]@, fragment@),
            PlayReply::Stream { index } => reg.spec_sessions().contains_key(room)
                && index < files@.len() && matches_fragment(files@[index as int]@, fragment@)
                && forall|j: int| 0 <= j < index ==> !matches_fragment(files@[j]@, fragment@),
        },
{
    match resolve(fragment, files) {
        None => PlayReply::NoMatch,
        Some(index) => {
            match reg.get(room) {
                None => PlayReply::NoSession,
                Some(_) => PlayReply::Stream { index },
            }
        },
    }
}

/// The console-side play command: resolves the fragment first -- a fragment
/// that matches nothing is reported as such even when the process is not
/// ready -- then discovers a target room as the first known room holding an
/// active session.
pub fn play_from_console(reg: &Registry, fragment: &str, files: &Vec<String>) -> (r:
    ConsolePlayReply)
    requires
        reg.wf(),
    ensures
        match r {
            ConsolePlayReply::NoMatch => forall|j: int|
                0 <= j < files@.len() ==> !matches_fragment(files@[j]@, fragment@),
            ConsolePlayReply::NotReady => !reg.spec_ready() && exists|j: int|
                0 <= j < files@.len() && matches_fragment(#[trigger] files@[j]@, fragment@),
            ConsolePlayReply::NoActive => reg.spec_ready() && (forall|j: int|
                0 <= j < reg.spec_rooms().len() ==> !reg.active_at(j)) && exists|j: int|
                0 <= j < files@.len() && matches_fragment(#[trigger] files@[j]@, fragment@),
            ConsolePlayReply::Stream { room, index } => reg.spec_ready()
                && reg.first_active_room(room) && reg.spec_sessions().contains_key(room)
                && index < files@.len() && matches_fragment(files@[index as int]@, fragment@)
                && forall|j: int| 0 <= j < index ==> !matches_fragment(files@[j]@, fragment@),
        },
{
    match resolve(fragment, files) {
        None => ConsolePlayReply::NoMatch,
        Some(index) => {
            proof {
                assert(matches_fragment(files@[index as int]@, fragment@));
            }
            match reg.find_active_session() {
                ActiveSearch::NotReady => ConsolePlayReply::NotReady,
                ActiveSearch::NoActive => ConsolePlayReply::NoActive,
                ActiveSearch::Found { room } => ConsolePlayReply::Stream { room, index },
            }
        },
    }
}

/// The ping command: always succeeds.
pub fn ping() -> (r: String)
    ensures
        r@ == "Pong!"@,
{
    String::from_str("Pong!")
}

/// The text a mute command reports back.
pub fn mute_message(r: &FlagReply) -> (m: String)
    ensures
        m@ == match r {
            FlagReply::NoSession => "Not in a voice channel"@,
            FlagReply::AlreadySet => "Already muted"@,
            FlagReply::NowSet => "Now muted"@,
        },
{
    match r {
        FlagReply::NoSession => String::from_str("Not in a voice channel"),
        FlagReply::AlreadySet => String::from_str("Already muted"),
        FlagReply::NowSet => String::from_str("Now muted"),
    }
}

/// The text an unmute command reports back.
pub fn unmute_message(r: &FlagReply) -> (m: String)
    ensures
        m@ == match r {
            FlagReply::NoSession => "Not in a voice channel to unmute in"@,
            _ => "Unmuted"@,
        },
{
    match r {
        FlagReply::NoSession => String::from_str("Not in a voice channel to unmute in"),
        _ => String::from_str("Unmuted"),
    }
}

/// The text a deafen command reports back.
pub fn deafen_message(r: &FlagReply) -> (m: String)
    ensures
        m@ == match r {
            FlagReply::NoSession => "Not in a voice channel"@,
            FlagReply::AlreadySet => "Already deafened"@,
            FlagReply::NowSet => "Deafened"@,
        },
{
    match r {
        FlagReply::NoSession => String::from_str("Not in a voice channel"),
        FlagReply::AlreadySet => String::from_str("Already deafened"),
        FlagReply::NowSet => String::from_str("Deafened"),
    }
}

/// The text an undeafen command reports back.
pub fn undeafen_message(r: &FlagReply) -> (m: String)
    ensures
        m@ == match r {
            FlagReply::NoSession => "Not in a voice channel to undeafen in"@,
            _ => "Undeafened"@,
        },
{
    match r {
        FlagReply::NoSession => String::from_str("Not in a voice channel to undeafen in"),
        _ => String::from_str("Undeafened"),
    }
}

/// The text a leave command reports back.
pub fn leave_message(r: &LeaveReply) -> (m: String)
    ensures
        m@ == match r {
            LeaveReply::NotInVoice => "Not in a voice channel"@,
            LeaveReply::Left => "Left voice channel"@,
        },
{
    match r {
        LeaveReply::NotInVoice => String::from_str("Not in a voice channel"),
        LeaveReply::Left => String::from_str("Left voice channel"),
    }
}

/// The success text of a play command, naming the resolved file.
pub fn playing_message(name: &str) -> (m: String)
    ensures
        m@ == "Playing "@ + name@,
{
    let mut m = String::from_str("Playing ");
    m.append(name);
    m
}

/// The text the console reports when the streaming collaborator could not
/// open the resolved file.
pub fn stream_failed_message(name: &str) -> (m: String)
    ensures
        m@ == "Invalid file: "@ + name@,
{
    let mut m = String::from_str("Invalid file: ");
    m.append(name);
    m
}

/// The text the chat side reports when the streaming collaborator could not
/// open the resolved file.
pub fn stream_error_message() -> (m: String)
    ensures
        m@ == "Error sourcing ffmpeg"@,
{
    String::from_str("Error sourcing ffmpeg")
}

/// The text a chat-side play command reports back.
pub fn play_message(r: &PlayReply, files: &Vec<String>) -> (m: String)
    requires
        r matches PlayReply::Stream { index } ==> index < files@.len(),
    ensures
        m@ == match r {
            PlayReply::NoMatch => "no matching file found"@,
            PlayReply::NoSession => "Not in a voice channel to play in"@,
            PlayReply::Stream { index } => "Playing "@ + files@[index as int]@,
        },
{
    match r {
        PlayReply::NoMatch => String::from_str("no matching file found"),
        PlayReply::NoSession => String::from_str("Not in a voice channel to play in"),
        PlayReply::Stream { index } => playing_message(files[*index].as_str()),
    }
}

/// The text a console-side play command reports back.
pub fn console_play_message(r: &ConsolePlayReply, files: &Vec<String>) -> (m: String)
    requires
        r matches ConsolePlayReply::Stream { room, index } ==> index < files@.len(),
    ensures
        m@ == match r {
            ConsolePlayReply::NoMatch => "no matching file found"@,
            ConsolePlayReply::NotReady => "State is uninitialized"@,
            ConsolePlayReply::NoActive => "No active voice channel found"@,
            ConsolePlayReply::Stream { room, index } => "Playing "@ + files@[index as int]@,
        },
{
    match r {
        ConsolePlayReply::NoMatch => String::from_str("no matching file found"),
        ConsolePlayReply::NotReady => String::from_str("State is uninitialized"),
        ConsolePlayReply::NoActive => String::from_str("No active voice channel found"),
        ConsolePlayReply::Stream { room: _, index } => playing_message(files[*index].as_str()),
    }
}

/// Re-joining a room never replaces or duplicates its session: a second join
/// on any table a first join produced leaves that table as it is, whatever
/// handle the collaborator offers.
pub proof fn lemma_join_idempotent(m: Map<u64, Session>, room: u64, h1: u64, h2: u64)
    ensures
        joined(joined(m, room, h1), room, h2) == joined(m, room, h1),
{
}

/// Any serialization of one join and one leave on the same room leaves the
/// session table in exactly one of two states: the room's fresh session
/// present, or the room absent -- never anything in between.
pub proof fn lemma_join_leave_serializations(m: Map<u64, Session>, room: u64, handle: u64)
    ensures
        left(joined(m, room, handle), room) == left(m, room),
        joined(left(m, room), room, handle) == left(m, room).insert(
            room,
            fresh_session(room, handle),
        ),
{
    assert(left(joined(m, room, handle), room) =~= left(m, room));
}

/// The mute/unmute asymmetry: on a table that a mute just acted on, a second
/// mute reports "already muted"; unmute succeeds whenever a session exists,
/// even right after another unmute.
pub proof fn lemma_mute_unmute_asymmetry(m: Map<u64, Session>, room: u64)
    requires
        m.contains_key(room),
    ensures
        mute_result(mute_post(m, room), room) == FlagReply::AlreadySet,
        unmute_result(unmute_post(m, room), room) == FlagReply::NowSet,
        deafen_result(deafen_post(m, room), room) == FlagReply::AlreadySet,
        undeafen_result(undeafen_post(m, room), room) == FlagReply::NowSet,
{
}

} // verus!

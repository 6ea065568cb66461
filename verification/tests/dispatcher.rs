use soundboard::dispatcher::{
    console_play_message, deafen, deafen_failed, deafen_message, join, leave, leave_message, mute,
    mute_failed, mute_message, ping, play_from_console, play_in_room, play_message,
    playing_message, stream_error_message, stream_failed_message, undeafen, undeafen_message,
    unmute, unmute_message, ConsolePlayReply, FlagReply, JoinReply, LeaveReply, PlayReply,
};
use soundboard::registry::Registry;

#[test]
fn join_is_idempotent_per_room() {
    let mut reg = Registry::new();
    assert_eq!(join(&mut reg, 1, 100), JoinReply::Joined);
    assert_eq!(join(&mut reg, 1, 200), JoinReply::AlreadyJoined);
    // The first handle is kept.
    assert_eq!(reg.get(1).unwrap().handle, 100);
    assert_eq!(join(&mut reg, 2, 300), JoinReply::Joined);
}

#[test]
fn leave_removes_and_reports_missing_sessions() {
    let mut reg = Registry::new();
    assert_eq!(leave(&mut reg, 1), LeaveReply::NotInVoice);
    join(&mut reg, 1, 100);
    assert_eq!(leave(&mut reg, 1), LeaveReply::Left);
    assert_eq!(reg.get(1), None);
    assert_eq!(leave(&mut reg, 1), LeaveReply::NotInVoice);
    assert_eq!(leave_message(&LeaveReply::Left), "Left voice channel");
    assert_eq!(leave_message(&LeaveReply::NotInVoice), "Not in a voice channel");
}

#[test]
fn leave_then_join_restores_a_fresh_session() {
    let mut reg = Registry::new();
    join(&mut reg, 1, 100);
    mute(&mut reg, 1);
    leave(&mut reg, 1);
    join(&mut reg, 1, 101);
    let s = reg.get(1).unwrap();
    assert_eq!(s.handle, 101);
    assert!(!s.muted);
}

#[test]
fn mute_twice_reports_already_muted() {
    let mut reg = Registry::new();
    assert_eq!(mute(&mut reg, 1), FlagReply::NoSession);
    join(&mut reg, 1, 100);
    let first = mute(&mut reg, 1);
    let second = mute(&mut reg, 1);
    assert_eq!(first, FlagReply::NowSet);
    assert_eq!(second, FlagReply::AlreadySet);
    assert_eq!(mute_message(&first), "Now muted");
    assert_eq!(mute_message(&second), "Already muted");
    assert_eq!(mute_message(&FlagReply::NoSession), "Not in a voice channel");
}

#[test]
fn unmute_twice_succeeds_both_times() {
    let mut reg = Registry::new();
    assert_eq!(unmute(&mut reg, 1), FlagReply::NoSession);
    join(&mut reg, 1, 100);
    mute(&mut reg, 1);
    let first = unmute(&mut reg, 1);
    let second = unmute(&mut reg, 1);
    assert_eq!(first, FlagReply::NowSet);
    assert_eq!(second, FlagReply::NowSet);
    assert_eq!(unmute_message(&first), "Unmuted");
    assert_eq!(unmute_message(&second), "Unmuted");
    assert_eq!(
        unmute_message(&FlagReply::NoSession),
        "Not in a voice channel to unmute in"
    );
}

#[test]
fn deafen_twice_reports_already_deafened() {
    let mut reg = Registry::new();
    join(&mut reg, 1, 100);
    assert_eq!(deafen(&mut reg, 1), FlagReply::NowSet);
    assert_eq!(deafen(&mut reg, 1), FlagReply::AlreadySet);
    assert_eq!(deafen_message(&FlagReply::NowSet), "Deafened");
    assert_eq!(deafen_message(&FlagReply::AlreadySet), "Already deafened");
    assert_eq!(deafen_message(&FlagReply::NoSession), "Not in a voice channel");
}

#[test]
fn undeafen_twice_succeeds_both_times() {
    let mut reg = Registry::new();
    join(&mut reg, 1, 100);
    deafen(&mut reg, 1);
    assert_eq!(undeafen(&mut reg, 1), FlagReply::NowSet);
    assert_eq!(undeafen(&mut reg, 1), FlagReply::NowSet);
    assert_eq!(undeafen_message(&FlagReply::NowSet), "Undeafened");
    assert_eq!(
        undeafen_message(&FlagReply::NoSession),
        "Not in a voice channel to undeafen in"
    );
}

#[test]
fn failed_collaborator_mute_rolls_the_flag_back() {
    let mut reg = Registry::new();
    join(&mut reg, 1, 100);
    assert_eq!(mute(&mut reg, 1), FlagReply::NowSet);
    // The collaborator rejected the call: the registry returns to the
    // pre-mute state, so the next mute is a fresh attempt, not "already".
    mute_failed(&mut reg, 1);
    assert!(!reg.get(1).unwrap().muted);
    assert_eq!(mute(&mut reg, 1), FlagReply::NowSet);
    // On a room without a session the rollback is harmless.
    mute_failed(&mut reg, 2);
    assert_eq!(reg.get(2), None);
}

#[test]
fn failed_collaborator_deafen_rolls_the_flag_back() {
    let mut reg = Registry::new();
    join(&mut reg, 1, 100);
    mute(&mut reg, 1);
    assert_eq!(deafen(&mut reg, 1), FlagReply::NowSet);
    deafen_failed(&mut reg, 1);
    let s = reg.get(1).unwrap();
    assert!(!s.deafened);
    // The other flag is untouched by the rollback.
    assert!(s.muted);
    assert_eq!(deafen(&mut reg, 1), FlagReply::NowSet);
}

#[test]
fn mute_and_deafen_are_independent_flags() {
    let mut reg = Registry::new();
    join(&mut reg, 1, 100);
    mute(&mut reg, 1);
    assert_eq!(deafen(&mut reg, 1), FlagReply::NowSet);
    unmute(&mut reg, 1);
    let s = reg.get(1).unwrap();
    assert!(!s.muted);
    assert!(s.deafened);
}

#[test]
fn play_in_room_resolves_then_needs_a_session() {
    let files = vec![String::from("applause.wav"), String::from("drum.ogg")];
    let mut reg = Registry::new();
    assert_eq!(play_in_room(&reg, 1, "zzz", &files), PlayReply::NoMatch);
    assert_eq!(play_in_room(&reg, 1, "appla", &files), PlayReply::NoSession);
    join(&mut reg, 1, 100);
    assert_eq!(
        play_in_room(&reg, 1, "appla", &files),
        PlayReply::Stream { index: 0 }
    );
    assert_eq!(
        play_in_room(&reg, 1, "drum", &files),
        PlayReply::Stream { index: 1 }
    );
    assert_eq!(
        play_message(&PlayReply::Stream { index: 0 }, &files),
        "Playing applause.wav"
    );
    assert_eq!(play_message(&PlayReply::NoMatch, &files), "no matching file found");
    assert_eq!(
        play_message(&PlayReply::NoSession, &files),
        "Not in a voice channel to play in"
    );
}

#[test]
fn play_from_console_discovers_the_active_room() {
    let files = vec![String::from("applause.wav")];
    let mut reg = Registry::new();
    assert_eq!(
        play_from_console(&reg, "appla", &files),
        ConsolePlayReply::NotReady
    );
    reg.set_connection_context(vec![10, 20]);
    assert_eq!(
        play_from_console(&reg, "appla", &files),
        ConsolePlayReply::NoActive
    );
    join(&mut reg, 20, 100);
    assert_eq!(
        play_from_console(&reg, "appla", &files),
        ConsolePlayReply::Stream { room: 20, index: 0 }
    );
    // Resolution failure is reported before any session lookup.
    assert_eq!(
        play_from_console(&reg, "zzz", &files),
        ConsolePlayReply::NoMatch
    );
    assert_eq!(
        console_play_message(&ConsolePlayReply::NotReady, &files),
        "State is uninitialized"
    );
    assert_eq!(
        console_play_message(&ConsolePlayReply::NoActive, &files),
        "No active voice channel found"
    );
}

#[test]
fn message_builders_report_exact_text() {
    assert_eq!(ping(), "Pong!");
    assert_eq!(playing_message("applause.wav"), "Playing applause.wav");
    assert_eq!(stream_failed_message("bad.bin"), "Invalid file: bad.bin");
    assert_eq!(stream_error_message(), "Error sourcing ffmpeg");
}

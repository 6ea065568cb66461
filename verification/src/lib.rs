//! Coordination core of a soundboard dispatcher.
//!
//! Given a short name fragment, the library resolves a matching audio file
//! name under a deterministic, locale-aware prefix rule, and tracks the
//! process's shared voice-session state: which rooms are known, which room
//! currently holds an active session, and the mute/deafen flags of each
//! session.  Every command (join, leave, mute, unmute, deafen, undeafen,
//! play, ping) is a verified transaction against that state; the chat
//! transport, the console reader and the audio streaming all live outside
//! the library and only feed it plain values.
#![verifier::loop_isolation(false)]

pub mod control;
pub mod dispatcher;
pub mod registry;
pub mod resolver;

//! Core of a local directory-based audio track player.
//!
//! The crate holds the parts of the player that carry real invariants:
//! the track catalog (an immutable, index-stable list of playable files),
//! the playback session state machine (which track is loaded, pause state,
//! and elapsed-time accounting across pause/resume cycles), and the
//! `mm:ss` time formatting used by the progress display.
//!
//! Filesystem discovery, the audio device, and the visual shell are thin
//! collaborators that live outside this crate; they feed plain values in
//! (discovered paths, decoder-reported durations, clock readings in
//! milliseconds) and act on the decisions the session hands back.

pub mod catalog;
pub mod session;
pub mod timefmt;

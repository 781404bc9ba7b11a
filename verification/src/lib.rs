//! Voice-session lifecycle and listening-state synchronization engine for a
//! chat bot that joins voice channels per guild and reads out messages from
//! text channels that are marked "listening".
//!
//! The crate holds the decision logic only: which voice channel to join or
//! leave, which listening records to write or clear, and how message text is
//! prepared for speech synthesis. The surrounding process performs the actual
//! transport, storage and synthesis calls and reports their outcomes back.

pub mod audio;
pub mod language;
pub mod laws;
pub mod playback;
pub mod reconciler;
pub mod registry;
pub mod session;
pub mod strutil;
pub mod transform;

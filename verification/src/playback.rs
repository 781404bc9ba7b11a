//! The playback dispatcher: decides what happens to synthesized audio once
//! the (possibly slow) synthesis call has finished. Synthesis runs outside
//! any guild lock, so the session may have been torn down meanwhile; the
//! result is then discarded silently, since playback is best-effort.

use vstd::prelude::*;
use crate::reconciler::{connected_at, SessionError, SessionReconciler};
use crate::session::{SessionModel, VoicePhase};

verus! {

/// What to do with the outcome of a synthesis call.
#[derive(Clone, Copy, Debug, PartialEq, Eq)]
pub enum PlaybackOutcome {
    /// The session still holds a live handle: submit the audio to it.
    Play { handle: u64 },
    /// The session was torn down while synthesis was in flight: drop the
    /// audio silently; this is not an error.
    Discarded,
    /// Synthesis failed; reported to the caller, never retried here.
    Failed { error: SessionError },
}

/// The decision made by `playback_complete`.
pub open spec fn spec_playback(
    m: Map<u64, SessionModel>,
    g: u64,
    synthesized: bool,
) -> PlaybackOutcome {
    if !synthesized {
        PlaybackOutcome::Failed { error: SessionError::SynthesisFailed }
    } else if connected_at(m, g) {
        PlaybackOutcome::Play { handle: m[g].phase->Connected_handle }
    } else {
        PlaybackOutcome::Discarded
    }
}

/// Reports whether synthesis succeeded for a speech request of `guild`, and
/// learns whether to play the audio (and on which handle), discard it, or
/// surface the failure.
pub fn playback_complete(rec: &SessionReconciler, guild: u64, synthesized: bool) -> (r:
    PlaybackOutcome)
    ensures
        r == spec_playback(rec@, guild, synthesized),
{
    if !synthesized {
        return PlaybackOutcome::Failed { error: SessionError::SynthesisFailed };
    }
    match rec.registry.get(guild) {
        Some(s) => match s.phase {
            VoicePhase::Connected { handle, channel: _ } => PlaybackOutcome::Play { handle },
            _ => PlaybackOutcome::Discarded,
        },
        None => PlaybackOutcome::Discarded,
    }
}

} // verus!

//! One guild's voice session: the phase of the voice-connection lifecycle and
//! the cached listening state.

use vstd::prelude::*;
use crate::language::Language;

verus! {

/// Where the bot stands in one guild's voice lifecycle.
///
/// A guild with no session entry at all is idle. The transient phases exist
/// only while a connect command is being driven to completion under the
/// guild's exclusive lock; between operations every stored session is
/// `Connected`.
#[derive(Clone, Copy, Debug, PartialEq, Eq, Structural)]
pub enum VoicePhase {
    /// A join of `target` has been requested from the voice transport;
    /// its outcome has not been reported yet.
    Joining { target: u64, cmd_channel: u64 },
    /// The transport joined `target` and returned `handle`; the deafen
    /// request's outcome has not been reported yet.
    Deafening { handle: u64, target: u64, cmd_channel: u64 },
    /// The bot is joined and deafened; the listening record for
    /// `cmd_channel` is being persisted.
    Storing { handle: u64, target: u64, cmd_channel: u64 },
    /// Settled: the bot holds `handle` and occupies voice channel `channel`.
    Connected { handle: u64, channel: u64 },
}

/// In-memory state for one guild.
pub struct GuildSession {
    pub phase: VoicePhase,
    /// Text channels currently marked listening for this guild, without
    /// duplicates. Mirrors the persisted listening records.
    pub listening: Vec<u64>,
    /// Cached language preference, loaded from the store when the session
    /// was created.
    pub language: Language,
}

/// Mathematical model of one guild session.
#[verifier::ext_equal]
pub struct SessionModel {
    pub phase: VoicePhase,
    pub listening: Seq<u64>,
    pub language: Language,
}

impl View for GuildSession {
    type V = SessionModel;

    open spec fn view(&self) -> SessionModel {
        SessionModel { phase: self.phase, listening: self.listening@, language: self.language }
    }
}

impl SessionModel {
    /// Well-formedness: the listening channels hold no duplicates.
    pub open spec fn wf(self) -> bool {
        self.listening.no_duplicates()
    }

    /// A session is settled when no transport request is in flight.
    pub open spec fn settled(self) -> bool {
        self.phase is Connected
    }
}

} // verus!

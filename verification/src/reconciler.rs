//! The session reconciler: consumes connect/disconnect commands, occupancy
//! changes and inbound messages, and keeps the per-guild session state, the
//! persisted listening records and the voice transport in agreement.
//!
//! The reconciler decides; the surrounding process acts. Every operation
//! returns a value that says exactly which transport calls and store writes
//! the caller must perform, and the outcomes of those calls are reported back
//! through the follow-up operations (`connect_joined`, `connect_deafened`,
//! `connect_persisted`). All operations for one guild must be serialized by
//! that guild's exclusive lock, so each session observed at the start of an
//! operation is settled.

use vstd::prelude::*;
use crate::language::Language;
use crate::registry::GuildSessionRegistry;
use crate::session::{GuildSession, SessionModel, VoicePhase};
use crate::transform::{spec_transform, transform_text, MemberNames};

verus! {

/// The errors surfaced to the invoking caller.
#[derive(Clone, Copy, Debug, PartialEq, Eq, Structural)]
pub enum SessionError {
    /// Connect was issued by a user who occupies no voice channel.
    NotInVoiceChannel,
    /// Disconnect was issued while no voice handle is held.
    NotConnected,
    /// The voice transport failed to join the requested channel.
    TransportJoinFailed,
    /// The transport joined but could not be deafened; the join was rolled
    /// back.
    DeafenFailed,
    /// The speech synthesizer failed to produce audio.
    SynthesisFailed,
    /// The session store rejected a write; the join was rolled back.
    StoreUnavailable,
}

/// A listening record the caller must persist: set `(guild, channel)` to
/// `listening`.
#[derive(Clone, Copy, Debug, PartialEq, Eq, Structural)]
pub struct StoreWrite {
    pub guild: u64,
    pub channel: u64,
    pub listening: bool,
}

/// An instruction to clear every persisted listening record of `guild`.
#[derive(Clone, Copy, Debug, PartialEq, Eq, Structural)]
pub struct StoreClear {
    pub guild: u64,
}

/// What `connect_begin` asks the caller to do.
#[derive(Clone, Copy, Debug, PartialEq, Eq)]
pub enum ConnectStart {
    /// The bot already occupies the requesting user's channel: the command
    /// channel was marked listening and `store` must be persisted. No
    /// transport call is made.
    AlreadyConnected { store: StoreWrite },
    /// The caller must release `release` (when moving between channels),
    /// then ask the transport to join `target`, and report the outcome to
    /// `connect_joined`.
    Join { target: u64, release: Option<u64> },
}

/// What `connect_joined` asks the caller to do next.
#[derive(Clone, Copy, Debug, PartialEq, Eq)]
pub enum JoinStep {
    /// The join succeeded: deafen `handle` and report the outcome to
    /// `connect_deafened`.
    Deafen { handle: u64 },
    /// The join failed: the connect attempt is over. When `clear` is set the
    /// guild's persisted listening records must be cleared, so that none
    /// points at a dead handle.
    Failed { error: SessionError, clear: Option<StoreClear> },
}

/// What `connect_deafened` asks the caller to do next.
#[derive(Clone, Copy, Debug, PartialEq, Eq)]
pub enum DeafenStep {
    /// Deafening succeeded: persist `store` and report the outcome to
    /// `connect_persisted`.
    Persist { store: StoreWrite },
    /// Deafening failed: the caller must release `release` (leave the just
    /// joined channel) and, when `clear` is set, clear the guild's persisted
    /// listening records. The connect attempt failed with `error`.
    RolledBack { release: u64, error: SessionError, clear: Option<StoreClear> },
}

/// How a connect attempt ends after the listening record was persisted.
#[derive(Clone, Copy, Debug, PartialEq, Eq)]
pub enum ConnectFinish {
    /// The session is connected. The caller should play the one-shot
    /// "connected" announcement for `announce` without blocking the reply.
    Connected { announce: Language },
    /// The store write failed: the caller must release `release` and, when
    /// `clear` is set, clear the guild's persisted listening records. The
    /// connect attempt failed with `error`.
    RolledBack { release: u64, error: SessionError, clear: Option<StoreClear> },
}

/// What a successful disconnect asks the caller to do: persist the cleared
/// command-channel record, release the handle, and clear every remaining
/// listening record of the guild.
#[derive(Clone, Copy, Debug, PartialEq, Eq, Structural)]
pub struct DisconnectDone {
    pub store: StoreWrite,
    pub release: u64,
    pub clear: StoreClear,
}

impl SessionModel {
    /// The session as first stored when a fresh join of `target` begins.
    pub open spec fn fresh_joining(target: u64, cmd_channel: u64, language: Language) -> SessionModel {
        SessionModel {
            phase: VoicePhase::Joining { target, cmd_channel },
            listening: Seq::<u64>::empty(),
            language,
        }
    }
}

/// Every session of the registry is well-formed.
pub open spec fn wf_registry(m: Map<u64, SessionModel>) -> bool {
    forall|g: u64| m.contains_key(g) ==> (#[trigger] m[g]).wf()
}

/// Every session of the registry is settled: this holds at every observation
/// point, i.e. whenever no operation is mid-flight under a guild's lock.
pub open spec fn all_settled(m: Map<u64, SessionModel>) -> bool {
    forall|g: u64| m.contains_key(g) ==> (#[trigger] m[g]).settled()
}

/// Guild `g` holds a live voice connection.
pub open spec fn connected_at(m: Map<u64, SessionModel>, g: u64) -> bool {
    m.contains_key(g) && m[g].phase is Connected
}

/// The transition made by `connect_begin`.
pub open spec fn spec_connect_begin(
    m: Map<u64, SessionModel>,
    g: u64,
    cmd_channel: u64,
    user_channel: Option<u64>,
    stored_language: Language,
) -> (Map<u64, SessionModel>, Result<ConnectStart, SessionError>) {
    match user_channel {
        None => (m, Err(SessionError::NotInVoiceChannel)),
        Some(vc) => {
            if m.contains_key(g) {
                let s = m[g];
                match s.phase {
                    VoicePhase::Connected { handle, channel } => {
                        if channel == vc {
                            // Idempotent join: already in the user's channel;
                            // only mark the command channel listening.
                            let s2 = SessionModel {
                                listening: if s.listening.contains(cmd_channel) {
                                    s.listening
                                } else {
                                    s.listening.push(cmd_channel)
                                },
                                ..s
                            };
                            (
                                m.insert(g, s2),
                                Ok(ConnectStart::AlreadyConnected {
                                    store: StoreWrite {
                                        guild: g,
                                        channel: cmd_channel,
                                        listening: true,
                                    },
                                }),
                            )
                        } else {
                            // Move: release the old handle first, then join
                            // the new channel. The listening records survive
                            // the move and are cleared only if it fails.
                            let s2 = SessionModel {
                                phase: VoicePhase::Joining { target: vc, cmd_channel },
                                ..s
                            };
                            (
                                m.insert(g, s2),
                                Ok(ConnectStart::Join { target: vc, release: Some(handle) }),
                            )
                        }
                    },
                    // Not reachable from a settled session.
                    _ => (m, Err(SessionError::NotInVoiceChannel)),
                }
            } else {
                // No live connection: start a fresh join.
                (
                    m.insert(g, SessionModel::fresh_joining(vc, cmd_channel, stored_language)),
                    Ok(ConnectStart::Join { target: vc, release: None }),
                )
            }
        },
    }
}

/// The records to clear when a connect attempt fails: only a guild that had
/// listening records (a move between channels) needs a store clear, so that
/// no record points at a dead handle.
pub open spec fn spec_failure_clear(s: SessionModel, g: u64) -> Option<StoreClear> {
    if s.listening.len() > 0 {
        Some(StoreClear { guild: g })
    } else {
        None
    }
}

/// The transition made by `connect_joined`.
pub open spec fn spec_connect_joined(
    m: Map<u64, SessionModel>,
    g: u64,
    handle: Option<u64>,
) -> (Map<u64, SessionModel>, JoinStep) {
    if m.contains_key(g) {
        let s = m[g];
        match s.phase {
            VoicePhase::Joining { target, cmd_channel } => {
                match handle {
                    Some(h) => (
                        m.insert(
                            g,
                            SessionModel {
                                phase: VoicePhase::Deafening { handle: h, target, cmd_channel },
                                ..s
                            },
                        ),
                        JoinStep::Deafen { handle: h },
                    ),
                    None => (
                        m.remove(g),
                        JoinStep::Failed {
                            error: SessionError::TransportJoinFailed,
                            clear: spec_failure_clear(s, g),
                        },
                    ),
                }
            },
            // Not reachable: `connect_joined` follows `connect_begin`.
            _ => (m, JoinStep::Failed { error: SessionError::TransportJoinFailed, clear: None }),
        }
    } else {
        (m, JoinStep::Failed { error: SessionError::TransportJoinFailed, clear: None })
    }
}

/// The transition made by `connect_deafened`.
pub open spec fn spec_connect_deafened(
    m: Map<u64, SessionModel>,
    g: u64,
    ok: bool,
) -> (Map<u64, SessionModel>, DeafenStep) {
    if m.contains_key(g) {
        let s = m[g];
        match s.phase {
            VoicePhase::Deafening { handle, target, cmd_channel } => {
                if ok {
                    (
                        m.insert(
                            g,
                            SessionModel {
                                phase: VoicePhase::Storing { handle, target, cmd_channel },
                                ..s
                            },
                        ),
                        DeafenStep::Persist {
                            store: StoreWrite { guild: g, channel: cmd_channel, listening: true },
                        },
                    )
                } else {
                    (
                        m.remove(g),
                        DeafenStep::RolledBack {
                            release: handle,
                            error: SessionError::DeafenFailed,
                            clear: spec_failure_clear(s, g),
                        },
                    )
                }
            },
            // Not reachable: `connect_deafened` follows `connect_joined`.
            _ => (
                m,
                DeafenStep::RolledBack {
                    release: 0,
                    error: SessionError::DeafenFailed,
                    clear: None,
                },
            ),
        }
    } else {
        (m, DeafenStep::RolledBack { release: 0, error: SessionError::DeafenFailed, clear: None })
    }
}

/// The transition made by `connect_persisted`.
pub open spec fn spec_connect_persisted(
    m: Map<u64, SessionModel>,
    g: u64,
    ok: bool,
) -> (Map<u64, SessionModel>, ConnectFinish) {
    if m.contains_key(g) {
        let s = m[g];
        match s.phase {
            VoicePhase::Storing { handle, target, cmd_channel } => {
                if ok {
                    let s2 = SessionModel {
                        phase: VoicePhase::Connected { handle, channel: target },
                        listening: if s.listening.contains(cmd_channel) {
                            s.listening
                        } else {
                            s.listening.push(cmd_channel)
                        },
                        language: s.language,
                    };
                    (m.insert(g, s2), ConnectFinish::Connected { announce: s.language })
                } else {
                    (
                        m.remove(g),
                        ConnectFinish::RolledBack {
                            release: handle,
                            error: SessionError::StoreUnavailable,
                            clear: spec_failure_clear(s, g),
                        },
                    )
                }
            },
            // Not reachable: `connect_persisted` follows `connect_deafened`.
            _ => (
                m,
                ConnectFinish::RolledBack {
                    release: 0,
                    error: SessionError::StoreUnavailable,
                    clear: None,
                },
            ),
        }
    } else {
        (
            m,
            ConnectFinish::RolledBack {
                release: 0,
                error: SessionError::StoreUnavailable,
                clear: None,
            },
        )
    }
}

/// The transition made by `disconnect`.
pub open spec fn spec_disconnect(
    m: Map<u64, SessionModel>,
    g: u64,
    cmd_channel: u64,
) -> (Map<u64, SessionModel>, Result<DisconnectDone, SessionError>) {
    if m.contains_key(g) {
        match m[g].phase {
            VoicePhase::Connected { handle, channel } => (
                m.remove(g),
                Ok(DisconnectDone {
                    store: StoreWrite { guild: g, channel: cmd_channel, listening: false },
                    release: handle,
                    clear: StoreClear { guild: g },
                }),
            ),
            // Not reachable from a settled session.
            _ => (m, Err(SessionError::NotConnected)),
        }
    } else {
        (m, Err(SessionError::NotConnected))
    }
}

/// The transition made by `on_occupancy_changed`.
pub open spec fn spec_occupancy(
    m: Map<u64, SessionModel>,
    g: u64,
    channel: u64,
    departing_is_bot: bool,
    remaining_non_bot: u64,
) -> (Map<u64, SessionModel>, OccupancyOutcome) {
    if departing_is_bot {
        // Involuntary disconnect: the transport is assumed gone, so no leave
        // is issued; all listening intent is reset fail-safe.
        (m.remove(g), OccupancyOutcome::BotDisconnected { clear: StoreClear { guild: g } })
    } else if m.contains_key(g) {
        match m[g].phase {
            VoicePhase::Connected { handle, channel: occupied } => {
                if occupied == channel && remaining_non_bot == 0 {
                    (
                        m.remove(g),
                        OccupancyOutcome::LeftEmptyChannel {
                            release: handle,
                            clear: StoreClear { guild: g },
                        },
                    )
                } else {
                    (m, OccupancyOutcome::Ignored)
                }
            },
            _ => (m, OccupancyOutcome::Ignored),
        }
    } else {
        (m, OccupancyOutcome::Ignored)
    }
}

/// The transition made by `set_language`.
pub open spec fn spec_set_language(
    m: Map<u64, SessionModel>,
    g: u64,
    language: Language,
) -> (Map<u64, SessionModel>, LanguageWrite) {
    (
        if m.contains_key(g) {
            m.insert(g, SessionModel { language, ..m[g] })
        } else {
            m
        },
        LanguageWrite { guild: g, language },
    )
}

/// What the gateway-driven occupancy handler asks the caller to do. These
/// outcomes are never surfaced to a user; they only correct state.
#[derive(Clone, Copy, Debug, PartialEq, Eq)]
pub enum OccupancyOutcome {
    /// Nothing to do.
    Ignored,
    /// The bot itself left (or was kicked): the session was dropped and the
    /// guild's persisted listening records must be cleared. No transport
    /// call is issued, the connection is assumed already gone.
    BotDisconnected { clear: StoreClear },
    /// No non-bot occupant remains in the bot's channel: the caller must
    /// release `release` and clear the guild's persisted listening records.
    LeftEmptyChannel { release: u64, clear: StoreClear },
}

/// A language preference the caller must persist.
#[derive(Clone, Copy, Debug, PartialEq, Eq, Structural)]
pub struct LanguageWrite {
    pub guild: u64,
    pub language: Language,
}

/// A message that qualified for playback: its text is ready for synthesis.
#[derive(Clone, Debug, PartialEq, Eq)]
pub struct SpeechRequest {
    pub guild: u64,
    pub text: String,
}

/// How an inbound message is handled.
#[derive(Clone, Debug, PartialEq, Eq)]
pub enum MessageOutcome {
    /// Bot author, or the channel is not marked listening: nothing to do.
    Ignored,
    /// Drift: the store marked the channel listening while no handle exists.
    /// The caller must persist `store`, which corrects the record to
    /// not-listening; no speech is produced.
    Healed { store: StoreWrite },
    /// The message qualifies: synthesize `request.text` and report the
    /// outcome to `playback_complete`.
    Speak { request: SpeechRequest },
}

/// The reconciler: owns the registry and decides every state transition.
pub struct SessionReconciler {
    pub registry: GuildSessionRegistry,
}

impl View for SessionReconciler {
    type V = Map<u64, SessionModel>;

    open spec fn view(&self) -> Map<u64, SessionModel> {
        self.registry@
    }
}

impl SessionReconciler {
    /// A reconciler with no live session.
    pub fn new() -> (r: SessionReconciler)
        ensures
            r@ == Map::<u64, SessionModel>::empty(),
    {
        SessionReconciler { registry: GuildSessionRegistry::new() }
    }

    /// Begins a connect command for `guild`, issued from text channel
    /// `cmd_channel` by a user who occupies `user_channel` (`None` when the
    /// user is in no voice channel). `stored_language` is the guild's
    /// persisted language preference, used when a session is created.
    ///
    /// Fails with `NotInVoiceChannel` iff `user_channel` is `None`. Otherwise
    /// the returned `ConnectStart` says whether the bot is already in place
    /// or which channel to join (and which handle to release first).
    pub fn connect_begin(
        &mut self,
        guild: u64,
        cmd_channel: u64,
        user_channel: Option<u64>,
        stored_language: Language,
    ) -> (r: Result<ConnectStart, SessionError>)
        requires
            wf_registry(old(self)@),
            old(self)@.contains_key(guild) ==> old(self)@[guild].settled(),
        ensures
            (final(self)@, r) == spec_connect_begin(
                old(self)@,
                guild,
                cmd_channel,
                user_channel,
                stored_language,
            ),
            wf_registry(final(self)@),
    {
        let vc = match user_channel {
            None => {
                return Err(SessionError::NotInVoiceChannel);
            },
            Some(vc) => vc,
        };
        match self.registry.take(guild) {
            Some(mut s) => {
                match s.phase {
                    VoicePhase::Connected { handle, channel } => {
                        if channel == vc {
                            add_unique(&mut s.listening, cmd_channel);
                            self.registry.put(guild, s);
                            proof {
                                lemma_reinsert(old(self)@, guild, final(self)@[guild]);
                            }
                            Ok(ConnectStart::AlreadyConnected {
                                store: StoreWrite {
                                    guild,
                                    channel: cmd_channel,
                                    listening: true,
                                },
                            })
                        } else {
                            s.phase = VoicePhase::Joining { target: vc, cmd_channel };
                            self.registry.put(guild, s);
                            proof {
                                lemma_reinsert(old(self)@, guild, final(self)@[guild]);
                            }
                            Ok(ConnectStart::Join { target: vc, release: Some(handle) })
                        }
                    },
                    _ => {
                        // Unreachable while sessions observed under the lock
                        // are settled; restated here to keep the operation
                        // total.
                        proof {
                            assert(false);
                        }
                        Err(SessionError::NotInVoiceChannel)
                    },
                }
            },
            None => {
                let s = GuildSession {
                    phase: VoicePhase::Joining { target: vc, cmd_channel },
                    listening: Vec::new(),
                    language: stored_language,
                };
                self.registry.put(guild, s);
                proof {
                    lemma_reinsert(old(self)@, guild, final(self)@[guild]);
                }
                Ok(ConnectStart::Join { target: vc, release: None })
            },
        }
    }

    /// Reports the outcome of the transport join requested by
    /// `connect_begin`: `Some(handle)` on success, `None` on failure.
    pub fn connect_joined(&mut self, guild: u64, handle: Option<u64>) -> (r: JoinStep)
        requires
            wf_registry(old(self)@),
            old(self)@.contains_key(guild),
            old(self)@[guild].phase is Joining,
        ensures
            (final(self)@, r) == spec_connect_joined(old(self)@, guild, handle),
            wf_registry(final(self)@),
    {
        match self.registry.take(guild) {
            Some(mut s) => {
                match s.phase {
                    VoicePhase::Joining { target, cmd_channel } => {
                        match handle {
                            Some(h) => {
                                s.phase = VoicePhase::Deafening { handle: h, target, cmd_channel };
                                self.registry.put(guild, s);
                                proof {
                                    lemma_reinsert(old(self)@, guild, final(self)@[guild]);
                                }
                                JoinStep::Deafen { handle: h }
                            },
                            None => {
                                let clear = if s.listening.len() > 0 {
                                    Some(StoreClear { guild })
                                } else {
                                    None
                                };
                                JoinStep::Failed {
                                    error: SessionError::TransportJoinFailed,
                                    clear,
                                }
                            },
                        }
                    },
                    _ => {
                        proof {
                            assert(false);
                        }
                        JoinStep::Failed { error: SessionError::TransportJoinFailed, clear: None }
                    },
                }
            },
            None => {
                proof {
                    assert(false);
                }
                JoinStep::Failed { error: SessionError::TransportJoinFailed, clear: None }
            },
        }
    }

    /// Reports the outcome of the deafen request issued after a successful
    /// join. On failure the join is rolled back: the caller must leave the
    /// channel it just joined, and no listening record is written.
    pub fn connect_deafened(&mut self, guild: u64, ok: bool) -> (r: DeafenStep)
        requires
            wf_registry(old(self)@),
            old(self)@.contains_key(guild),
            old(self)@[guild].phase is Deafening,
        ensures
            (final(self)@, r) == spec_connect_deafened(old(self)@, guild, ok),
            wf_registry(final(self)@),
    {
        match self.registry.take(guild) {
            Some(mut s) => {
                match s.phase {
                    VoicePhase::Deafening { handle, target, cmd_channel } => {
                        if ok {
                            s.phase = VoicePhase::Storing { handle, target, cmd_channel };
                            self.registry.put(guild, s);
                            proof {
                                lemma_reinsert(old(self)@, guild, final(self)@[guild]);
                            }
                            DeafenStep::Persist {
                                store: StoreWrite { guild, channel: cmd_channel, listening: true },
                            }
                        } else {
                            let clear = if s.listening.len() > 0 {
                                Some(StoreClear { guild })
                            } else {
                                None
                            };
                            DeafenStep::RolledBack {
                                release: handle,
                                error: SessionError::DeafenFailed,
                                clear,
                            }
                        }
                    },
                    _ => {
                        proof {
                            assert(false);
                        }
                        DeafenStep::RolledBack {
                            release: 0,
                            error: SessionError::DeafenFailed,
                            clear: None,
                        }
                    },
                }
            },
            None => {
                proof {
                    assert(false);
                }
                DeafenStep::RolledBack {
                    release: 0,
                    error: SessionError::DeafenFailed,
                    clear: None,
                }
            },
        }
    }

    /// Reports the outcome of persisting the command channel's listening
    /// record. On success the session is connected; on failure the join is
    /// rolled back so that no listening record points at a dead handle.
    pub fn connect_persisted(&mut self, guild: u64, ok: bool) -> (r: ConnectFinish)
        requires
            wf_registry(old(self)@),
            old(self)@.contains_key(guild),
            old(self)@[guild].phase is Storing,
        ensures
            (final(self)@, r) == spec_connect_persisted(old(self)@, guild, ok),
            wf_registry(final(self)@),
    {
        match self.registry.take(guild) {
            Some(mut s) => {
                match s.phase {
                    VoicePhase::Storing { handle, target, cmd_channel } => {
                        if ok {
                            let announce = s.language;
                            add_unique(&mut s.listening, cmd_channel);
                            s.phase = VoicePhase::Connected { handle, channel: target };
                            self.registry.put(guild, s);
                            proof {
                                lemma_reinsert(old(self)@, guild, final(self)@[guild]);
                            }
                            ConnectFinish::Connected { announce }
                        } else {
                            let clear = if s.listening.len() > 0 {
                                Some(StoreClear { guild })
                            } else {
                                None
                            };
                            ConnectFinish::RolledBack {
                                release: handle,
                                error: SessionError::StoreUnavailable,
                                clear,
                            }
                        }
                    },
                    _ => {
                        proof {
                            assert(false);
                        }
                        ConnectFinish::RolledBack {
                            release: 0,
                            error: SessionError::StoreUnavailable,
                            clear: None,
                        }
                    },
                }
            },
            None => {
                proof {
                    assert(false);
                }
                ConnectFinish::RolledBack {
                    release: 0,
                    error: SessionError::StoreUnavailable,
                    clear: None,
                }
            },
        }
    }

    /// Handles a disconnect command for `guild` issued from text channel
    /// `cmd_channel`. Fails with `NotConnected` iff no voice handle is held.
    /// On success the session is dropped and every listening record of the
    /// guild must be cleared: a voice disconnect always resets listening
    /// intent, fail-safe.
    pub fn disconnect(&mut self, guild: u64, cmd_channel: u64) -> (r: Result<
        DisconnectDone,
        SessionError,
    >)
        requires
            wf_registry(old(self)@),
            old(self)@.contains_key(guild) ==> old(self)@[guild].settled(),
        ensures
            (final(self)@, r) == spec_disconnect(old(self)@, guild, cmd_channel),
            wf_registry(final(self)@),
    {
        let (handle, _channel) = match self.registry.get(guild) {
            None => {
                return Err(SessionError::NotConnected);
            },
            Some(s) => {
                match s.phase {
                    VoicePhase::Connected { handle, channel } => (handle, channel),
                    _ => {
                        proof {
                            assert(false);
                        }
                        return Err(SessionError::NotConnected);
                    },
                }
            },
        };
        self.registry.take(guild);
        Ok(DisconnectDone {
            store: StoreWrite { guild, channel: cmd_channel, listening: false },
            release: handle,
            clear: StoreClear { guild },
        })
    }

    /// Handles a gateway report that a user left voice channel `channel` of
    /// `guild`, with `remaining_non_bot` non-bot occupants left in it. When
    /// the departing user is the bot itself this is an involuntary
    /// disconnect; when the bot's own channel has no non-bot occupant left
    /// the bot leaves proactively. Either way all listening intent is reset.
    pub fn on_occupancy_changed(
        &mut self,
        guild: u64,
        channel: u64,
        departing_is_bot: bool,
        remaining_non_bot: u64,
    ) -> (r: OccupancyOutcome)
        requires
            wf_registry(old(self)@),
            old(self)@.contains_key(guild) ==> old(self)@[guild].settled(),
        ensures
            (final(self)@, r) == spec_occupancy(
                old(self)@,
                guild,
                channel,
                departing_is_bot,
                remaining_non_bot,
            ),
            wf_registry(final(self)@),
    {
        if departing_is_bot {
            self.registry.take(guild);
            return OccupancyOutcome::BotDisconnected { clear: StoreClear { guild } };
        }
        let handle = match self.registry.get(guild) {
            None => {
                return OccupancyOutcome::Ignored;
            },
            Some(s) => {
                match s.phase {
                    VoicePhase::Connected { handle, channel: occupied } => {
                        if occupied == channel && remaining_non_bot == 0 {
                            handle
                        } else {
                            return OccupancyOutcome::Ignored;
                        }
                    },
                    _ => {
                        proof {
                            assert(false);
                        }
                        return OccupancyOutcome::Ignored;
                    },
                }
            },
        };
        self.registry.take(guild);
        OccupancyOutcome::LeftEmptyChannel { release: handle, clear: StoreClear { guild } }
    }

    /// Records a new language preference for `guild`: the cached session (if
    /// any) is updated and the returned write must be persisted.
    pub fn set_language(&mut self, guild: u64, language: Language) -> (r: LanguageWrite)
        requires
            wf_registry(old(self)@),
        ensures
            (final(self)@, r) == spec_set_language(old(self)@, guild, language),
            wf_registry(final(self)@),
    {
        let found = match self.registry.get(guild) {
            None => false,
            Some(_) => true,
        };
        if found {
            let mut s = self.registry.take(guild).unwrap();
            s.language = language;
            self.registry.put(guild, s);
            proof {
                lemma_reinsert(old(self)@, guild, final(self)@[guild]);
            }
        }
        LanguageWrite { guild, language }
    }

    /// Handles an inbound message in text channel `channel` of `guild`.
    /// `store_listening` is what the persisted record says for that channel;
    /// `names` holds the guild members' display names for mention
    /// substitution.
    ///
    /// A message speaks iff its author is not a bot, the store marks the
    /// channel listening, and the guild holds a live handle. When the store
    /// says listening but no handle exists, the record is corrected to
    /// not-listening and nothing is spoken (silent self-healing); listening
    /// state is never altered otherwise.
    pub fn on_message(
        &mut self,
        guild: u64,
        channel: u64,
        author_is_bot: bool,
        store_listening: bool,
        text: &str,
        names: &MemberNames,
    ) -> (r: MessageOutcome)
        requires
            wf_registry(old(self)@),
            old(self)@.contains_key(guild) ==> old(self)@[guild].settled(),
        ensures
            final(self)@ == old(self)@,
            wf_registry(final(self)@),
            r is Speak <==> (!author_is_bot && store_listening && connected_at(
                old(self)@,
                guild,
            )),
            (!author_is_bot && store_listening && !connected_at(old(self)@, guild)) ==> r
                == (MessageOutcome::Healed {
                store: StoreWrite { guild, channel, listening: false },
            }),
            (author_is_bot || !store_listening) ==> r == MessageOutcome::Ignored,
            r matches MessageOutcome::Speak { request } ==> request.guild == guild
                && request.text@ == spec_transform(text@, names@),
    {
        if author_is_bot {
            return MessageOutcome::Ignored;
        }
        if !store_listening {
            return MessageOutcome::Ignored;
        }
        let connected = match self.registry.get(guild) {
            Some(s) => match s.phase {
                VoicePhase::Connected { .. } => true,
                _ => false,
            },
            None => false,
        };
        if !connected {
            return MessageOutcome::Healed {
                store: StoreWrite { guild, channel, listening: false },
            };
        }
        let transformed = transform_text(text, names);
        MessageOutcome::Speak { request: SpeechRequest { guild, text: transformed } }
    }

    /// Whether `guild` currently holds a live voice connection.
    pub fn is_connected(&self, guild: u64) -> (b: bool)
        ensures
            b == connected_at(self@, guild),
    {
        match self.registry.get(guild) {
            Some(s) => match s.phase {
                VoicePhase::Connected { .. } => true,
                _ => false,
            },
            None => false,
        }
    }

    /// The voice channel the bot occupies in `guild`, if connected.
    pub fn connected_channel(&self, guild: u64) -> (r: Option<u64>)
        ensures
            match r {
                Some(c) => connected_at(self@, guild) && c == self@[guild].phase->Connected_channel,
                None => !connected_at(self@, guild),
            },
    {
        match self.registry.get(guild) {
            Some(s) => match s.phase {
                VoicePhase::Connected { handle: _, channel } => Some(channel),
                _ => None,
            },
            None => None,
        }
    }

    /// Whether no operation is mid-flight for `guild`: true between
    /// completed operations, when the caller may start the next one.
    pub fn is_settled(&self, guild: u64) -> (b: bool)
        ensures
            b == (self@.contains_key(guild) ==> self@[guild].settled()),
    {
        match self.registry.get(guild) {
            Some(s) => match s.phase {
                VoicePhase::Connected { .. } => true,
                _ => false,
            },
            None => true,
        }
    }

    /// The text channels currently marked listening for `guild`.
    pub fn listening_channels(&self, guild: u64) -> (v: Vec<u64>)
        ensures
            self@.contains_key(guild) ==> v@ == self@[guild].listening,
            !self@.contains_key(guild) ==> v@ == Seq::<u64>::empty(),
    {
        match self.registry.get(guild) {
            Some(s) => {
                let mut v: Vec<u64> = Vec::new();
                let mut i: usize = 0;
                proof {
                    assert(v@ =~= s.listening@.subrange(0, 0));
                }
                while i < s.listening.len()
                    invariant
                        i <= s.listening@.len(),
                        v@ == s.listening@.subrange(0, i as int),
                    decreases s.listening@.len() - i,
                {
                    v.push(s.listening[i]);
                    proof {
                        assert(s.listening@.subrange(0, i + 1) =~= s.listening@.subrange(
                            0,
                            i as int,
                        ).push(s.listening@[i as int]));
                    }
                    i += 1;
                }
                proof {
                    assert(s.listening@.subrange(0, s.listening@.len() as int) =~= s.listening@);
                }
                v
            },
            None => Vec::new(),
        }
    }
}

/// Reinserting at a removed key is the same as inserting directly.
proof fn lemma_reinsert(m: Map<u64, SessionModel>, g: u64, s: SessionModel)
    ensures
        m.remove(g).insert(g, s) == m.insert(g, s),
{
    assert(m.remove(g).insert(g, s) =~= m.insert(g, s));
}

/// Appends `x` to `v` unless already present, keeping entries unique.
fn add_unique(v: &mut Vec<u64>, x: u64) -> (added: bool)
    ensures
        final(v)@ == (if old(v)@.contains(x) {
            old(v)@
        } else {
            old(v)@.push(x)
        }),
        added == !old(v)@.contains(x),
        old(v)@.no_duplicates() ==> final(v)@.no_duplicates(),
{
    let mut i: usize = 0;
    while i < v.len()
        invariant
            i <= v.len(),
            v@ == old(v)@,
            forall|k: int| 0 <= k < i ==> v@[k] != x,
        decreases v.len() - i,
    {
        if v[i] == x {
            proof {
                assert(v@.contains(x)) by {
                    assert(v@[i as int] == x);
                }
            }
            return false;
        }
        i += 1;
    }
    proof {
        assert(!old(v)@.contains(x)) by {
            assert(forall|k: int| 0 <= k < v@.len() ==> v@[k] != x);
        }
    }
    v.push(x);
    proof {
        if old(v)@.no_duplicates() {
            assert forall|a: int, b: int|
                0 <= a < v@.len() && 0 <= b < v@.len() && a != b implies v@[a] != v@[b] by {
                if a < v@.len() - 1 && b < v@.len() - 1 {
                    assert(v@[a] == old(v)@[a] && v@[b] == old(v)@[b]);
                } else if b == v@.len() - 1 {
                    assert(v@[a] == old(v)@[a] && v@[b] == x);
                } else {
                    assert(v@[b] == old(v)@[b] && v@[a] == x);
                }
            }
        }
    }
    true
}

} // verus!

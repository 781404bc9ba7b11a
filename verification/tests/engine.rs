//! End-to-end scenarios for the session reconciler.

use voice_session::language::Language;
use voice_session::playback::{playback_complete, PlaybackOutcome};
use voice_session::reconciler::{
    ConnectFinish, ConnectStart, DeafenStep, JoinStep, MessageOutcome, OccupancyOutcome,
    SessionError, SessionReconciler, StoreClear, StoreWrite,
};
use voice_session::transform::MemberNames;

const G: u64 = 900;
const C1: u64 = 11;
const C2: u64 = 12;
const VC1: u64 = 21;
const VC2: u64 = 22;
const H1: u64 = 71;
const H2: u64 = 72;

/// Drives one connect command to full success.
fn connect_ok(rec: &mut SessionReconciler, guild: u64, cmd: u64, vc: u64, handle: u64) {
    match rec.connect_begin(guild, cmd, Some(vc), Language::English) {
        Ok(ConnectStart::Join { target, .. }) => {
            assert_eq!(target, vc);
            assert_eq!(rec.connect_joined(guild, Some(handle)), JoinStep::Deafen { handle });
            assert_eq!(
                rec.connect_deafened(guild, true),
                DeafenStep::Persist {
                    store: StoreWrite { guild, channel: cmd, listening: true }
                }
            );
            assert_eq!(
                rec.connect_persisted(guild, true),
                ConnectFinish::Connected { announce: Language::English }
            );
        }
        Ok(ConnectStart::AlreadyConnected { .. }) => {}
        other => panic!("connect failed: {:?}", other),
    }
}

#[test]
fn connect_success_flow() {
    let mut rec = SessionReconciler::new();
    let r = rec.connect_begin(G, C1, Some(VC1), Language::English);
    assert_eq!(r, Ok(ConnectStart::Join { target: VC1, release: None }));
    assert_eq!(rec.connect_joined(G, Some(H1)), JoinStep::Deafen { handle: H1 });
    assert_eq!(
        rec.connect_deafened(G, true),
        DeafenStep::Persist {
            store: StoreWrite { guild: G, channel: C1, listening: true }
        }
    );
    assert_eq!(
        rec.connect_persisted(G, true),
        ConnectFinish::Connected { announce: Language::English }
    );
    assert!(rec.is_connected(G));
    assert_eq!(rec.connected_channel(G), Some(VC1));
    assert_eq!(rec.listening_channels(G), vec![C1]);
    assert!(rec.is_settled(G));
}

#[test]
fn connect_requires_voice_channel() {
    let mut rec = SessionReconciler::new();
    let r = rec.connect_begin(G, C1, None, Language::English);
    assert_eq!(r, Err(SessionError::NotInVoiceChannel));
    assert!(!rec.is_connected(G));
}

#[test]
fn connect_join_failure_leaves_no_state() {
    let mut rec = SessionReconciler::new();
    rec.connect_begin(G, C1, Some(VC1), Language::English).unwrap();
    assert_eq!(
        rec.connect_joined(G, None),
        JoinStep::Failed { error: SessionError::TransportJoinFailed, clear: None }
    );
    assert!(!rec.is_connected(G));
    assert!(rec.listening_channels(G).is_empty());
    assert!(rec.is_settled(G));
}

#[test]
fn connect_deafen_failure_rolls_back() {
    let mut rec = SessionReconciler::new();
    rec.connect_begin(G, C1, Some(VC1), Language::English).unwrap();
    assert_eq!(rec.connect_joined(G, Some(H1)), JoinStep::Deafen { handle: H1 });
    assert_eq!(
        rec.connect_deafened(G, false),
        DeafenStep::RolledBack {
            release: H1,
            error: SessionError::DeafenFailed,
            clear: None
        }
    );
    assert!(!rec.is_connected(G));
    assert!(rec.listening_channels(G).is_empty());
}

#[test]
fn connect_store_failure_rolls_back() {
    let mut rec = SessionReconciler::new();
    rec.connect_begin(G, C1, Some(VC1), Language::English).unwrap();
    rec.connect_joined(G, Some(H1));
    rec.connect_deafened(G, true);
    assert_eq!(
        rec.connect_persisted(G, false),
        ConnectFinish::RolledBack {
            release: H1,
            error: SessionError::StoreUnavailable,
            clear: None
        }
    );
    assert!(!rec.is_connected(G));
}

#[test]
fn connect_twice_is_idempotent() {
    let mut rec = SessionReconciler::new();
    connect_ok(&mut rec, G, C1, VC1, H1);
    // The second identical connect ends at connect_begin: no join, no new
    // state, only the listening record confirmed.
    let again = rec.connect_begin(G, C1, Some(VC1), Language::English);
    assert_eq!(
        again,
        Ok(ConnectStart::AlreadyConnected {
            store: StoreWrite { guild: G, channel: C1, listening: true }
        })
    );
    assert!(rec.is_connected(G));
    assert_eq!(rec.connected_channel(G), Some(VC1));
    assert_eq!(rec.listening_channels(G), vec![C1]);
}

#[test]
fn connect_same_channel_adds_listening_channel() {
    let mut rec = SessionReconciler::new();
    connect_ok(&mut rec, G, C1, VC1, H1);
    let r = rec.connect_begin(G, C2, Some(VC1), Language::English);
    assert_eq!(
        r,
        Ok(ConnectStart::AlreadyConnected {
            store: StoreWrite { guild: G, channel: C2, listening: true }
        })
    );
    assert_eq!(rec.listening_channels(G), vec![C1, C2]);
    assert_eq!(rec.connected_channel(G), Some(VC1));
}

#[test]
fn connect_moves_between_channels() {
    let mut rec = SessionReconciler::new();
    connect_ok(&mut rec, G, C1, VC1, H1);
    // The user is now in VC2: the old handle is released first, then the
    // new channel joined; the old listening records survive the move.
    let r = rec.connect_begin(G, C2, Some(VC2), Language::English);
    assert_eq!(r, Ok(ConnectStart::Join { target: VC2, release: Some(H1) }));
    assert_eq!(rec.connect_joined(G, Some(H2)), JoinStep::Deafen { handle: H2 });
    rec.connect_deafened(G, true);
    assert_eq!(
        rec.connect_persisted(G, true),
        ConnectFinish::Connected { announce: Language::English }
    );
    assert_eq!(rec.connected_channel(G), Some(VC2));
    assert_eq!(rec.listening_channels(G), vec![C1, C2]);
}

#[test]
fn move_failure_clears_old_records() {
    let mut rec = SessionReconciler::new();
    connect_ok(&mut rec, G, C1, VC1, H1);
    rec.connect_begin(G, C2, Some(VC2), Language::English).unwrap();
    // The join of VC2 fails; the guild had listening records, so they must
    // be cleared rather than point at a dead handle.
    assert_eq!(
        rec.connect_joined(G, None),
        JoinStep::Failed {
            error: SessionError::TransportJoinFailed,
            clear: Some(StoreClear { guild: G })
        }
    );
    assert!(!rec.is_connected(G));
    assert!(rec.listening_channels(G).is_empty());
}

#[test]
fn disconnect_clears_everything() {
    let mut rec = SessionReconciler::new();
    connect_ok(&mut rec, G, C1, VC1, H1);
    let r = rec.disconnect(G, C1);
    assert_eq!(
        r,
        Ok(voice_session::reconciler::DisconnectDone {
            store: StoreWrite { guild: G, channel: C1, listening: false },
            release: H1,
            clear: StoreClear { guild: G }
        })
    );
    assert!(!rec.is_connected(G));
    assert!(rec.listening_channels(G).is_empty());
    // A second disconnect finds nothing.
    assert_eq!(rec.disconnect(G, C1), Err(SessionError::NotConnected));
}

#[test]
fn disconnect_without_connection_fails() {
    let mut rec = SessionReconciler::new();
    assert_eq!(rec.disconnect(G, C1), Err(SessionError::NotConnected));
}

#[test]
fn bot_departure_clears_all_records() {
    let mut rec = SessionReconciler::new();
    connect_ok(&mut rec, G, C1, VC1, H1);
    rec.connect_begin(G, C2, Some(VC1), Language::English).unwrap();
    assert_eq!(rec.listening_channels(G), vec![C1, C2]);
    // The gateway reports the bot itself leaving: everything is reset, no
    // matter how many channels were listening, and no leave is issued.
    let r = rec.on_occupancy_changed(G, VC1, true, 3);
    assert_eq!(r, OccupancyOutcome::BotDisconnected { clear: StoreClear { guild: G } });
    assert!(!rec.is_connected(G));
    assert!(rec.listening_channels(G).is_empty());
}

#[test]
fn empty_channel_triggers_leave() {
    let mut rec = SessionReconciler::new();
    connect_ok(&mut rec, G, C1, VC1, H1);
    let r = rec.on_occupancy_changed(G, VC1, false, 0);
    assert_eq!(
        r,
        OccupancyOutcome::LeftEmptyChannel { release: H1, clear: StoreClear { guild: G } }
    );
    assert!(!rec.is_connected(G));
    assert!(rec.listening_channels(G).is_empty());
}

#[test]
fn occupied_channel_is_left_alone() {
    let mut rec = SessionReconciler::new();
    connect_ok(&mut rec, G, C1, VC1, H1);
    assert_eq!(rec.on_occupancy_changed(G, VC1, false, 2), OccupancyOutcome::Ignored);
    assert!(rec.is_connected(G));
    assert_eq!(rec.listening_channels(G), vec![C1]);
}

#[test]
fn other_channel_emptying_is_ignored() {
    let mut rec = SessionReconciler::new();
    connect_ok(&mut rec, G, C1, VC1, H1);
    assert_eq!(rec.on_occupancy_changed(G, VC2, false, 0), OccupancyOutcome::Ignored);
    assert!(rec.is_connected(G));
}

#[test]
fn message_in_unlistened_channel_is_ignored() {
    let mut rec = SessionReconciler::new();
    connect_ok(&mut rec, G, C1, VC1, H1);
    let names = MemberNames::new();
    // A handle exists, but the store does not mark this channel listening.
    let r = rec.on_message(G, C2, false, false, "hello", &names);
    assert_eq!(r, MessageOutcome::Ignored);
}

#[test]
fn message_with_drift_heals_record() {
    let mut rec = SessionReconciler::new();
    let names = MemberNames::new();
    // The store says listening but no handle exists: the record is
    // corrected to not-listening and nothing is spoken.
    let r = rec.on_message(G, C1, false, true, "hello", &names);
    assert_eq!(
        r,
        MessageOutcome::Healed {
            store: StoreWrite { guild: G, channel: C1, listening: false }
        }
    );
    assert!(!rec.is_connected(G));
}

#[test]
fn message_from_bot_is_ignored() {
    let mut rec = SessionReconciler::new();
    connect_ok(&mut rec, G, C1, VC1, H1);
    let names = MemberNames::new();
    let r = rec.on_message(G, C1, true, true, "hello", &names);
    assert_eq!(r, MessageOutcome::Ignored);
}

#[test]
fn qualifying_message_speaks() {
    let mut rec = SessionReconciler::new();
    connect_ok(&mut rec, G, C1, VC1, H1);
    let names = MemberNames::new();
    let r = rec.on_message(G, C1, false, true, "hello", &names);
    match r {
        MessageOutcome::Speak { request } => {
            assert_eq!(request.guild, G);
            assert_eq!(request.text, "hello");
        }
        other => panic!("expected speech, got {:?}", other),
    }
}

#[test]
fn full_session_scenario() {
    // Guild G, user in channel VC1: connect, speak, disconnect.
    let mut rec = SessionReconciler::new();
    assert_eq!(
        rec.connect_begin(G, C1, Some(VC1), Language::English),
        Ok(ConnectStart::Join { target: VC1, release: None })
    );
    assert_eq!(rec.connect_joined(G, Some(H1)), JoinStep::Deafen { handle: H1 });
    assert_eq!(
        rec.connect_deafened(G, true),
        DeafenStep::Persist {
            store: StoreWrite { guild: G, channel: C1, listening: true }
        }
    );
    assert_eq!(
        rec.connect_persisted(G, true),
        ConnectFinish::Connected { announce: Language::English }
    );
    assert_eq!(rec.listening_channels(G), vec![C1]);
    assert_eq!(rec.connected_channel(G), Some(VC1));

    let names = MemberNames::new();
    match rec.on_message(G, C1, false, true, "hello", &names) {
        MessageOutcome::Speak { request } => assert_eq!(request.text, "hello"),
        other => panic!("expected speech, got {:?}", other),
    }

    assert!(rec.disconnect(G, C1).is_ok());
    assert!(rec.listening_channels(G).is_empty());
    assert!(!rec.is_connected(G));
}

#[test]
fn playback_follows_session_state() {
    let mut rec = SessionReconciler::new();
    connect_ok(&mut rec, G, C1, VC1, H1);
    // Session alive: play on the live handle.
    assert_eq!(playback_complete(&rec, G, true), PlaybackOutcome::Play { handle: H1 });
    // Synthesis failed: reported, not retried.
    assert_eq!(
        playback_complete(&rec, G, false),
        PlaybackOutcome::Failed { error: SessionError::SynthesisFailed }
    );
    // Session torn down while synthesis was in flight: discard silently.
    rec.disconnect(G, C1).unwrap();
    assert_eq!(playback_complete(&rec, G, true), PlaybackOutcome::Discarded);
}

#[test]
fn set_language_updates_announcement() {
    let mut rec = SessionReconciler::new();
    let w = rec.set_language(G, Language::Japanese);
    assert_eq!(w.guild, G);
    assert_eq!(w.language, Language::Japanese);
    // A fresh session created with the stored preference announces in it.
    rec.connect_begin(G, C1, Some(VC1), Language::Japanese).unwrap();
    rec.connect_joined(G, Some(H1));
    rec.connect_deafened(G, true);
    assert_eq!(
        rec.connect_persisted(G, true),
        ConnectFinish::Connected { announce: Language::Japanese }
    );
}

#[test]
fn guilds_are_independent() {
    let mut rec = SessionReconciler::new();
    connect_ok(&mut rec, G, C1, VC1, H1);
    let g2: u64 = 901;
    connect_ok(&mut rec, g2, C2, VC2, H2);
    rec.disconnect(G, C1).unwrap();
    assert!(!rec.is_connected(G));
    assert!(rec.is_connected(g2));
    assert_eq!(rec.connected_channel(g2), Some(VC2));
    assert_eq!(rec.listening_channels(g2), vec![C2]);
}

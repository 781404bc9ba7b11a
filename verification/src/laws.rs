//! Laws of the reconciler: properties that hold across whole operations,
//! proved over the same transition functions that the operations' contracts
//! use.
//!
//! An observation point is any moment at which no operation is mid-flight
//! for any guild (every stored session is settled). The lemmas here show
//! that every complete operation carries `all_settled` and well-formedness
//! from one observation point to the next, and that the listening state and
//! voice handle stay in agreement.

use vstd::prelude::*;
use crate::language::Language;
use crate::reconciler::{
    all_settled, connected_at, spec_connect_begin, spec_connect_deafened, spec_connect_joined,
    spec_connect_persisted, spec_disconnect, spec_occupancy, spec_set_language, wf_registry,
    ConnectStart, LanguageWrite, OccupancyOutcome, SessionError, StoreClear, StoreWrite,
};
use crate::session::SessionModel;

verus! {

/// The registry after one connect command for `guild`, issued from
/// `cmd_channel` by a user in voice channel `user_channel`, driven to
/// completion with every outside call succeeding (the transport handing
/// back `handle` on join). When the bot is already in place no transport
/// call is made and the command ends with `connect_begin` itself.
pub open spec fn connect_complete(
    m: Map<u64, SessionModel>,
    guild: u64,
    cmd_channel: u64,
    user_channel: u64,
    stored_language: Language,
    handle: u64,
) -> Map<u64, SessionModel> {
    let begun = spec_connect_begin(m, guild, cmd_channel, Some(user_channel), stored_language);
    if begun.1 matches Ok(ConnectStart::Join { .. }) {
        let joined = spec_connect_joined(begun.0, guild, Some(handle));
        let deafened = spec_connect_deafened(joined.0, guild, true);
        spec_connect_persisted(deafened.0, guild, true).0
    } else {
        begun.0
    }
}

/// Settledness survives dropping a session.
proof fn lemma_settled_remove(m: Map<u64, SessionModel>, g: u64)
    requires
        all_settled(m),
    ensures
        all_settled(m.remove(g)),
{
}

/// Law: at every observation point, a guild with a non-empty set of
/// listening channels holds a live voice handle. (Listening channels exist
/// only on a session, and every settled session is connected.)
pub proof fn lemma_listening_implies_handle(m: Map<u64, SessionModel>, g: u64)
    requires
        all_settled(m),
        m.contains_key(g),
        m[g].listening.len() > 0,
    ensures
        m[g].phase is Connected,
{
}

/// Law: a connect command driven to completion with all outside calls
/// succeeding leaves every session settled and well-formed, leaves the
/// guild connected to the requesting user's channel with the command
/// channel marked listening, and touches no other guild.
pub proof fn lemma_connect_complete(
    m: Map<u64, SessionModel>,
    guild: u64,
    cmd_channel: u64,
    user_channel: u64,
    stored_language: Language,
    handle: u64,
)
    requires
        wf_registry(m),
        all_settled(m),
    ensures
        ({
            let m2 = connect_complete(m, guild, cmd_channel, user_channel, stored_language, handle);
            &&& all_settled(m2)
            &&& wf_registry(m2)
            &&& connected_at(m2, guild)
            &&& m2[guild].phase->Connected_channel == user_channel
            &&& m2[guild].listening.contains(cmd_channel)
            &&& forall|g2: u64|
                g2 != guild ==> (m2.contains_key(g2) == m.contains_key(g2) && (m.contains_key(g2)
                    ==> m2[g2] == m[g2]))
        }),
{
    let m2 = connect_complete(m, guild, cmd_channel, user_channel, stored_language, handle);
    let begun = spec_connect_begin(m, guild, cmd_channel, Some(user_channel), stored_language);
    if begun.1 matches Ok(ConnectStart::Join { .. }) {
        let s1 = begun.0[guild];
        let joined = spec_connect_joined(begun.0, guild, Some(handle));
        let s2 = joined.0[guild];
        let deafened = spec_connect_deafened(joined.0, guild, true);
        let s3 = deafened.0[guild];
        let done = spec_connect_persisted(deafened.0, guild, true);
        assert(s3.listening == s1.listening);
        if !s3.listening.contains(cmd_channel) {
            assert(m2[guild].listening == s3.listening.push(cmd_channel));
            assert(m2[guild].listening[m2[guild].listening.len() - 1] == cmd_channel);
        }
        assert(m2[guild].wf()) by {
            if !s3.listening.contains(cmd_channel) {
                lemma_push_unique(s3.listening, cmd_channel);
            }
        }
    } else {
        let s = m[guild];
        let s2 = m2[guild];
        assert(s2.listening == (if s.listening.contains(cmd_channel) {
            s.listening
        } else {
            s.listening.push(cmd_channel)
        }));
        if !s.listening.contains(cmd_channel) {
            assert(s2.listening[s2.listening.len() - 1] == cmd_channel);
            lemma_push_unique(s.listening, cmd_channel);
        }
    }
}

/// Pushing an element not yet present keeps a sequence duplicate-free.
proof fn lemma_push_unique(s: Seq<u64>, x: u64)
    requires
        s.no_duplicates(),
        !s.contains(x),
    ensures
        s.push(x).no_duplicates(),
{
    let s2 = s.push(x);
    assert forall|a: int, b: int|
        0 <= a < s2.len() && 0 <= b < s2.len() && a != b implies s2[a] != s2[b] by {
        if a < s.len() && b < s.len() {
            assert(s2[a] == s[a] && s2[b] == s[b]);
        } else if b == s.len() {
            assert(s2[a] == s[a] && s2[b] == x);
        } else {
            assert(s2[b] == s[b] && s2[a] == x);
        }
    }
}

/// Law: connect is idempotent. After a completed connect, repeating the
/// same connect command changes nothing: `connect_begin` answers
/// `AlreadyConnected` (so no transport call is made) and the registry is
/// left exactly as it was.
pub proof fn lemma_connect_idempotent(
    m: Map<u64, SessionModel>,
    guild: u64,
    cmd_channel: u64,
    user_channel: u64,
    stored_language: Language,
    handle: u64,
    handle2: u64,
)
    requires
        wf_registry(m),
        all_settled(m),
    ensures
        ({
            let m1 = connect_complete(m, guild, cmd_channel, user_channel, stored_language, handle);
            let again = spec_connect_begin(
                m1,
                guild,
                cmd_channel,
                Some(user_channel),
                stored_language,
            );
            &&& again.1 == Ok::<ConnectStart, SessionError>(ConnectStart::AlreadyConnected {
                store: StoreWrite { guild, channel: cmd_channel, listening: true },
            })
            &&& again.0 == m1
            &&& connect_complete(m1, guild, cmd_channel, user_channel, stored_language, handle2)
                == m1
        }),
{
    lemma_connect_complete(m, guild, cmd_channel, user_channel, stored_language, handle);
    let m1 = connect_complete(m, guild, cmd_channel, user_channel, stored_language, handle);
    let s = m1[guild];
    let again = spec_connect_begin(m1, guild, cmd_channel, Some(user_channel), stored_language);
    let s2 = SessionModel {
        listening: if s.listening.contains(cmd_channel) {
            s.listening
        } else {
            s.listening.push(cmd_channel)
        },
        ..s
    };
    assert(s2 =~= s);
    assert(again.0 =~= m1);
}

/// Law: a disconnect right after a completed connect succeeds, drops the
/// guild's session entirely (voice handle absent, no listening channel
/// left), and orders every persisted listening record of the guild cleared.
pub proof fn lemma_disconnect_after_connect(
    m: Map<u64, SessionModel>,
    guild: u64,
    cmd_channel: u64,
    user_channel: u64,
    stored_language: Language,
    handle: u64,
)
    requires
        wf_registry(m),
        all_settled(m),
    ensures
        ({
            let m1 = connect_complete(m, guild, cmd_channel, user_channel, stored_language, handle);
            let ended = spec_disconnect(m1, guild, cmd_channel);
            &&& ended.0 == m1.remove(guild)
            &&& !ended.0.contains_key(guild)
            &&& ended.1 matches Ok(d) && d.clear == (StoreClear { guild }) && d.store == (StoreWrite {
                guild,
                channel: cmd_channel,
                listening: false,
            })
            &&& all_settled(ended.0)
            &&& wf_registry(ended.0)
        }),
{
    lemma_connect_complete(m, guild, cmd_channel, user_channel, stored_language, handle);
    let m1 = connect_complete(m, guild, cmd_channel, user_channel, stored_language, handle);
    lemma_settled_remove(m1, guild);
}

/// Law: when the gateway reports the bot itself departing, the guild's
/// session is dropped and all of its listening records are ordered cleared,
/// however many channels were listening and whatever state the guild was
/// in. Other guilds are untouched.
pub proof fn lemma_bot_departure_resets(
    m: Map<u64, SessionModel>,
    guild: u64,
    channel: u64,
    remaining_non_bot: u64,
)
    requires
        wf_registry(m),
        all_settled(m),
    ensures
        ({
            let stepped = spec_occupancy(m, guild, channel, true, remaining_non_bot);
            &&& stepped.0 == m.remove(guild)
            &&& !stepped.0.contains_key(guild)
            &&& stepped.1 == OccupancyOutcome::BotDisconnected { clear: StoreClear { guild } }
            &&& all_settled(stepped.0)
            &&& wf_registry(stepped.0)
            &&& forall|g2: u64| g2 != guild && m.contains_key(g2) ==> stepped.0[g2] == m[g2]
        }),
{
    lemma_settled_remove(m, guild);
}

/// Law: when a user's departure leaves the bot's current channel without
/// non-bot occupants, the bot leaves and the guild's listening records are
/// ordered cleared; when occupants remain, nothing happens at all.
pub proof fn lemma_empty_channel_leave(
    m: Map<u64, SessionModel>,
    guild: u64,
    channel: u64,
    remaining_non_bot: u64,
)
    requires
        wf_registry(m),
        all_settled(m),
        connected_at(m, guild),
        m[guild].phase->Connected_channel == channel,
    ensures
        ({
            let stepped = spec_occupancy(m, guild, channel, false, remaining_non_bot);
            &&& remaining_non_bot == 0 ==> {
                &&& stepped.0 == m.remove(guild)
                &&& !stepped.0.contains_key(guild)
                &&& stepped.1 == OccupancyOutcome::LeftEmptyChannel {
                    release: m[guild].phase->Connected_handle,
                    clear: StoreClear { guild },
                }
                &&& all_settled(stepped.0)
                &&& wf_registry(stepped.0)
            }
            &&& remaining_non_bot > 0 ==> (stepped.0 == m && stepped.1
                == OccupancyOutcome::Ignored)
        }),
{
    lemma_settled_remove(m, guild);
}

/// Law: a connect attempt whose join, deafen or store write fails leaves
/// the guild without a session — no voice handle and no listening channel —
/// so every session is again settled and the listening invariant holds.
pub proof fn lemma_connect_failure_resets(
    m: Map<u64, SessionModel>,
    guild: u64,
    cmd_channel: u64,
    user_channel: u64,
    stored_language: Language,
    handle: u64,
)
    requires
        wf_registry(m),
        all_settled(m),
        spec_connect_begin(m, guild, cmd_channel, Some(user_channel), stored_language).1 matches Ok(
            ConnectStart::Join { .. },
        ),
    ensures
        ({
            let m1 = spec_connect_begin(m, guild, cmd_channel, Some(user_channel), stored_language).0;
            let join_failed = spec_connect_joined(m1, guild, None).0;
            let m2 = spec_connect_joined(m1, guild, Some(handle)).0;
            let deafen_failed = spec_connect_deafened(m2, guild, false).0;
            let m3 = spec_connect_deafened(m2, guild, true).0;
            let store_failed = spec_connect_persisted(m3, guild, false).0;
            &&& join_failed == m.remove(guild) && all_settled(join_failed) && wf_registry(
                join_failed,
            )
            &&& deafen_failed == m.remove(guild) && all_settled(deafen_failed) && wf_registry(
                deafen_failed,
            )
            &&& store_failed == m.remove(guild) && all_settled(store_failed) && wf_registry(
                store_failed,
            )
        }),
{
    let m1 = spec_connect_begin(m, guild, cmd_channel, Some(user_channel), stored_language).0;
    let m2 = spec_connect_joined(m1, guild, Some(handle)).0;
    let m3 = spec_connect_deafened(m2, guild, true).0;
    lemma_settled_remove(m, guild);
    assert(spec_connect_joined(m1, guild, None).0 =~= m.remove(guild));
    assert(spec_connect_deafened(m2, guild, false).0 =~= m.remove(guild));
    assert(spec_connect_persisted(m3, guild, false).0 =~= m.remove(guild));
}

/// Law: recording a language preference touches no phase and no listening
/// set: every session stays settled and well-formed, and only the guild's
/// cached language may change.
pub proof fn lemma_set_language_preserves(m: Map<u64, SessionModel>, guild: u64, language: Language)
    requires
        wf_registry(m),
        all_settled(m),
    ensures
        ({
            let stepped = spec_set_language(m, guild, language);
            &&& all_settled(stepped.0)
            &&& wf_registry(stepped.0)
            &&& stepped.0.dom() == m.dom()
            &&& m.contains_key(guild) ==> (stepped.0[guild].phase == m[guild].phase
                && stepped.0[guild].listening == m[guild].listening)
            &&& forall|g2: u64| g2 != guild && m.contains_key(g2) ==> stepped.0[g2] == m[g2]
            &&& stepped.1 == (LanguageWrite { guild, language })
        }),
{
    let stepped = spec_set_language(m, guild, language);
    assert(stepped.0.dom() =~= m.dom());
}

} // verus!


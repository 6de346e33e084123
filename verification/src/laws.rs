//! What holds of the registry and the commands on every input, stated over
//! the functions that their contracts use.

use crate::commands::{
    after_play, play_reply, play_step, stop_step, AttachOutcome, PlayPlan, Reply, StopStep,
};
use crate::ids::{ChannelId, GuildId, TrackId};
use crate::registry::{
    after_join, after_leave, after_start, after_stop, handle_of, track_of, ConnectionHandle,
    Session, Sessions,
};
use crate::resolver::{resolved, InputError, Source};
use vstd::prelude::*;

verus! {

/// One change that a command makes to the sessions.
pub enum Change {
    /// `guild` was connected to the channel.
    Join(GuildId, ChannelId),
    /// `guild` left.
    Leave(GuildId),
    /// The track started for `guild`.
    Start(GuildId, TrackId),
    /// Playback was stopped for `guild`.
    Stop(GuildId),
}

/// The sessions after one change.
pub open spec fn apply(sessions: Sessions, change: Change) -> Sessions {
    match change {
        Change::Join(guild, channel) => after_join(sessions, guild, channel),
        Change::Leave(guild) => after_leave(sessions, guild),
        Change::Start(guild, track) => after_start(sessions, guild, track),
        Change::Stop(guild) => after_stop(sessions, guild),
    }
}

/// The sessions after a run of changes, the first of them applied first.
pub open spec fn replay(sessions: Sessions, changes: Seq<Change>) -> Sessions
    decreases changes.len(),
{
    if changes.len() == 0 {
        sessions
    } else {
        apply(replay(sessions, changes.drop_last()), changes.last())
    }
}

/// Whether a change connects `guild`.
pub open spec fn connects(change: Change, guild: GuildId) -> bool {
    change matches Change::Join(joined, _) && joined == guild
}

/// Whether a change starts a track for `guild`.
pub open spec fn starts_for(change: Change, guild: GuildId) -> bool {
    change matches Change::Start(started, _) && started == guild
}

/// A guild that was never joined has no connection, whatever else happened
/// since the registry was empty.
pub proof fn lemma_never_joined_is_absent(changes: Seq<Change>, guild: GuildId)
    requires
        forall|i: int| 0 <= i < changes.len() ==> !connects(#[trigger] changes[i], guild),
    ensures
        !replay(Map::<GuildId, Session>::empty(), changes).contains_key(guild),
    decreases changes.len(),
{
    if changes.len() > 0 {
        let earlier = changes.drop_last();
        assert forall|i: int| 0 <= i < earlier.len() implies !connects(
            #[trigger] earlier[i],
            guild,
        ) by {
            assert(earlier[i] == changes[i]);
        }
        lemma_never_joined_is_absent(earlier, guild);
    }
}

/// For a guild without a connection a lookup finds nothing, `play` on any
/// words but none answers that nothing is connected and asks nothing of the
/// transport, a track reported as started is not recorded, and `stop` asks
/// nothing either; none of them changes the sessions.
pub proof fn lemma_unconnected_guild_is_inert(
    sessions: Sessions,
    guild: GuildId,
    words: Seq<Seq<char>>,
    track: TrackId,
)
    requires
        !sessions.contains_key(guild),
        words.len() > 0,
    ensures
        handle_of(sessions, guild) is None,
        track_of(sessions, guild) is None,
        play_step(sessions, guild, words) == PlayPlan::Notice(Reply::NotInVoiceChannelToPlay),
        play_reply(sessions, guild, AttachOutcome::Started(track))
            == Reply::NotInVoiceChannelToPlay,
        after_play(sessions, guild, AttachOutcome::Started(track)) == sessions,
        stop_step(sessions, guild) == StopStep::Idle,
        after_stop(sessions, guild) == sessions,
{
}

/// After a join the guild's connection is bound to the channel joined. A
/// second join makes no second connection: the same guilds are connected as
/// after the first, the one connection of the guild is bound to the second
/// channel and keeps its track, and every other guild is as it was.
pub proof fn lemma_join_binds_and_never_doubles(
    sessions: Sessions,
    guild: GuildId,
    first: ChannelId,
    second: ChannelId,
)
    ensures
        handle_of(after_join(sessions, guild, first), guild) == Some(
            ConnectionHandle { guild, channel: first },
        ),
        track_of(after_join(sessions, guild, first), guild) == track_of(sessions, guild),
        after_join(sessions, guild, first).dom() == sessions.dom().insert(guild),
        after_join(after_join(sessions, guild, first), guild, second).dom() == after_join(
            sessions,
            guild,
            first,
        ).dom(),
        after_join(after_join(sessions, guild, first), guild, second) == after_join(
            sessions,
            guild,
            second,
        ),
        forall|other: GuildId|
            other != guild && sessions.contains_key(other) ==> #[trigger] after_join(
                sessions,
                guild,
                first,
            )[other] == sessions[other],
{
}

/// Joining a guild adds one connection at most: the count of connected
/// guilds grows by one for a guild that had none and stays for one that had.
pub proof fn lemma_join_counts_once(sessions: Sessions, guild: GuildId, channel: ChannelId)
    requires
        sessions.dom().finite(),
    ensures
        after_join(sessions, guild, channel).dom().finite(),
        after_join(sessions, guild, channel).dom().len() == sessions.dom().len() + (if sessions.contains_key(
            guild,
        ) {
            0int
        } else {
            1int
        }),
{
}

/// After a guild has left, a lookup finds nothing and its track is out of
/// reach: no track is recorded for it, `play` asks nothing of the transport,
/// `stop` asks nothing, a track that starts late is not recorded, and a new
/// connection begins with an empty slot.
pub proof fn lemma_leave_forgets(
    sessions: Sessions,
    guild: GuildId,
    words: Seq<Seq<char>>,
    late: TrackId,
    again: ChannelId,
)
    ensures
        handle_of(after_leave(sessions, guild), guild) is None,
        track_of(after_leave(sessions, guild), guild) is None,
        !(play_step(after_leave(sessions, guild), guild, words) is Attach),
        stop_step(after_leave(sessions, guild), guild) == StopStep::Idle,
        after_start(after_leave(sessions, guild), guild, late) == after_leave(sessions, guild),
        track_of(after_join(after_leave(sessions, guild), guild, again), guild) is None,
        forall|other: GuildId|
            other != guild ==> #[trigger] handle_of(after_leave(sessions, guild), other)
                == handle_of(sessions, other),
{
}

/// No words at all are rejected as empty input, and only they are; `play`
/// then asks for a locator or a phrase, whatever the sessions hold.
pub proof fn lemma_empty_input_is_rejected(
    sessions: Sessions,
    guild: GuildId,
    words: Seq<Seq<char>>,
)
    ensures
        words.len() == 0 <==> resolved(words) == Err::<Source, InputError>(InputError::Empty),
        resolved(words) is Err <==> words.len() == 0,
        words.len() == 0 ==> play_step(sessions, guild, words) == PlayPlan::Notice(
            Reply::MustProvideUrl,
        ),
{
}

/// Starting tracks connects and disconnects nobody: after any run of starts
/// the same guilds are connected, each to the channel it was bound to.
pub proof fn lemma_starts_keep_connections(
    sessions: Sessions,
    changes: Seq<Change>,
    guild: GuildId,
)
    requires
        forall|i: int| 0 <= i < changes.len() ==> #[trigger] changes[i] is Start,
    ensures
        replay(sessions, changes).dom() == sessions.dom(),
        handle_of(replay(sessions, changes), guild) == handle_of(sessions, guild),
    decreases changes.len(),
{
    if changes.len() > 0 {
        let earlier = changes.drop_last();
        assert forall|i: int| 0 <= i < earlier.len() implies #[trigger] earlier[i] is Start by {
            assert(earlier[i] == changes[i]);
        }
        lemma_starts_keep_connections(sessions, earlier, guild);
    }
}

/// The last writer wins: after any run of tracks started for a connected
/// guild, in whatever order they came, the slot of the guild holds the track
/// of the last of them.
pub proof fn lemma_last_writer_wins(sessions: Sessions, changes: Seq<Change>, guild: GuildId)
    requires
        sessions.contains_key(guild),
        changes.len() > 0,
        forall|i: int| 0 <= i < changes.len() ==> starts_for(#[trigger] changes[i], guild),
    ensures
        changes.last() matches Change::Start(_, track) && track_of(
            replay(sessions, changes),
            guild,
        ) == Some(track),
{
    let earlier = changes.drop_last();
    assert forall|i: int| 0 <= i < earlier.len() implies #[trigger] earlier[i] is Start by {
        assert(earlier[i] == changes[i]);
    }
    lemma_starts_keep_connections(sessions, earlier, guild);
}

/// Two tracks started for one connected guild, in either order: no
/// connection is added or lost, and the slot holds the one that came last.
pub proof fn lemma_two_plays_in_either_order(
    sessions: Sessions,
    guild: GuildId,
    one: TrackId,
    other: TrackId,
)
    requires
        sessions.contains_key(guild),
    ensures
        after_start(after_start(sessions, guild, one), guild, other).dom() == sessions.dom(),
        after_start(after_start(sessions, guild, other), guild, one).dom() == sessions.dom(),
        track_of(after_start(after_start(sessions, guild, one), guild, other), guild) == Some(
            other,
        ),
        track_of(after_start(after_start(sessions, guild, other), guild, one), guild) == Some(one),
        handle_of(after_start(after_start(sessions, guild, one), guild, other), guild)
            == handle_of(sessions, guild),
        handle_of(after_start(after_start(sessions, guild, other), guild, one), guild)
            == handle_of(sessions, guild),
{
}

/// A track that started and was then stopped leaves the slot empty and the
/// connection in place.
pub proof fn lemma_stop_clears_slot(sessions: Sessions, guild: GuildId, track: TrackId)
    requires
        sessions.contains_key(guild),
    ensures
        track_of(after_start(sessions, guild, track), guild) == Some(track),
        stop_step(after_start(sessions, guild, track), guild) == (StopStep::Halt { guild }),
        track_of(after_stop(after_start(sessions, guild, track), guild), guild) is None,
        handle_of(after_stop(after_start(sessions, guild, track), guild), guild) == handle_of(
            sessions,
            guild,
        ),
{
}

} // verus!

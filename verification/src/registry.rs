//! The guild session registry: which guilds hold a voice connection, into
//! which channel, and which track each of them last started.

use crate::ids::{ChannelId, GuildId, TrackId};
use std::collections::HashMap;
use vstd::prelude::*;
use vstd::set_lib::lemma_map_size;

verus! {

broadcast use vstd::std_specs::hash::group_hash_axioms;

/// The voice state of one connected guild.
///
/// The track slot lives inside the connection's record, so a recorded track
/// never outlives its connection.
#[derive(Clone, Copy, Debug, PartialEq, Eq)]
pub struct Session {
    /// The channel the connection is bound to.
    pub channel: ChannelId,
    /// The track most recently started on the connection, until it is stopped.
    pub current_track: Option<TrackId>,
}

/// What a lookup hands out of a connection: its guild and its channel.
#[derive(Clone, Copy, Debug, PartialEq, Eq)]
pub struct ConnectionHandle {
    pub guild: GuildId,
    pub channel: ChannelId,
}

/// The result of registering a connection.
#[derive(Clone, Copy, Debug, PartialEq, Eq)]
pub struct Joined {
    /// The guild's one connection, bound to the channel just joined.
    pub handle: ConnectionHandle,
    /// Whether the guild had no connection before; if it had one, that
    /// connection was kept and moved to the channel.
    pub created: bool,
}

/// Why a guild could not be left.
#[derive(Clone, Copy, Debug, PartialEq, Eq, Structural)]
pub enum LeaveError {
    /// The guild holds no connection.
    NotConnected,
}

/// The registry as a mathematical map from guild to session.
pub type Sessions = Map<GuildId, Session>;

/// The connection of `guild`, if it has one.
pub open spec fn handle_of(sessions: Sessions, guild: GuildId) -> Option<ConnectionHandle> {
    if sessions.contains_key(guild) {
        Some(ConnectionHandle { guild, channel: sessions[guild].channel })
    } else {
        None
    }
}

/// The track recorded for `guild`, if it is connected and one is recorded.
pub open spec fn track_of(sessions: Sessions, guild: GuildId) -> Option<TrackId> {
    if sessions.contains_key(guild) {
        sessions[guild].current_track
    } else {
        None
    }
}

/// The sessions once `guild` has joined `channel`. A guild that was
/// connected keeps its one connection, now bound to `channel`, and its
/// recorded track; a guild that was not starts with an empty track slot.
pub open spec fn after_join(sessions: Sessions, guild: GuildId, channel: ChannelId) -> Sessions {
    sessions.insert(guild, Session { channel, current_track: track_of(sessions, guild) })
}

/// The sessions once `guild` has left: its entry is gone, and its track slot
/// with it.
pub open spec fn after_leave(sessions: Sessions, guild: GuildId) -> Sessions {
    sessions.remove(guild)
}

/// The sessions once `track` has started for `guild`: it replaces whatever
/// the slot held. Without a connection nothing is recorded.
pub open spec fn after_start(sessions: Sessions, guild: GuildId, track: TrackId) -> Sessions {
    if sessions.contains_key(guild) {
        sessions.insert(
            guild,
            Session { channel: sessions[guild].channel, current_track: Some(track) },
        )
    } else {
        sessions
    }
}

/// The sessions once playback has stopped for `guild`: its slot is empty.
pub open spec fn after_stop(sessions: Sessions, guild: GuildId) -> Sessions {
    if sessions.contains_key(guild) {
        sessions.insert(guild, Session { channel: sessions[guild].channel, current_track: None })
    } else {
        sessions
    }
}

/// The registry of voice sessions, one entry at most per guild.
pub struct SessionRegistry {
    sessions: HashMap<u64, Session>,
}

impl View for SessionRegistry {
    type V = Sessions;

    closed spec fn view(&self) -> Sessions {
        Map::new(
            |guild: GuildId| self.sessions@.contains_key(guild.0),
            |guild: GuildId| self.sessions@[guild.0],
        )
    }
}

impl SessionRegistry {
    /// A registry in which no guild is connected.
    pub fn new() -> (registry: Self)
        ensures
            registry@ == Map::<GuildId, Session>::empty(),
    {
        SessionRegistry { sessions: HashMap::new() }
    }

    /// The number of connected guilds.
    pub fn len(&self) -> (count: usize)
        ensures
            self@.dom().finite(),
            count == self@.dom().len(),
    {
        proof {
            let keys = self.sessions@.dom();
            let wrap = |key: u64| GuildId(key);
            assert forall|guild: GuildId| keys.map(wrap).contains(guild) == self@.dom().contains(
                guild,
            ) by {
                if self@.dom().contains(guild) {
                    assert(keys.contains(guild.0) && guild == wrap(guild.0));
                }
            }
            assert(keys.map(wrap) =~= self@.dom());
            lemma_map_size(keys, self@.dom(), wrap);
        }
        self.sessions.len()
    }

    /// Looks up the connection of `guild`. Nothing changes.
    pub fn get(&self, guild: GuildId) -> (handle: Option<ConnectionHandle>)
        ensures
            handle == handle_of(self@, guild),
    {
        match self.sessions.get(&guild.0) {
            Some(session) => Some(ConnectionHandle { guild, channel: session.channel }),
            None => None,
        }
    }

    /// The track recorded for `guild`.
    pub fn current_track(&self, guild: GuildId) -> (track: Option<TrackId>)
        ensures
            track == track_of(self@, guild),
    {
        match self.sessions.get(&guild.0) {
            Some(session) => session.current_track,
            None => None,
        }
    }

    /// Registers the connection of `guild` into `channel`.
    ///
    /// A guild never holds two connections: where one exists it is reused
    /// and bound to `channel`, keeping its recorded track.
    pub fn join(&mut self, guild: GuildId, channel: ChannelId) -> (joined: Joined)
        ensures
            final(self)@ == after_join(old(self)@, guild, channel),
            joined.handle == (ConnectionHandle { guild, channel }),
            joined.created == !old(self)@.contains_key(guild),
    {
        let kept = self.current_track(guild);
        let before = self.sessions.insert(guild.0, Session { channel, current_track: kept });
        Joined { handle: ConnectionHandle { guild, channel }, created: before.is_none() }
    }

    /// Removes the connection of `guild`, and its track slot with it.
    pub fn leave(&mut self, guild: GuildId) -> (result: Result<(), LeaveError>)
        ensures
            final(self)@ == after_leave(old(self)@, guild),
            result is Ok <==> old(self)@.contains_key(guild),
            result is Err ==> result == Err::<(), LeaveError>(LeaveError::NotConnected),
    {
        let before = self.sessions.remove(&guild.0);
        match before {
            Some(_) => Ok(()),
            None => Err(LeaveError::NotConnected),
        }
    }

    /// Records `track` as the one now playing for `guild`, in place of
    /// whatever was recorded. Returns whether the guild is connected; if it
    /// is not, nothing is recorded.
    pub fn set_current_track(&mut self, guild: GuildId, track: TrackId) -> (recorded: bool)
        ensures
            final(self)@ == after_start(old(self)@, guild, track),
            recorded == old(self)@.contains_key(guild),
    {
        match self.get(guild) {
            Some(handle) => {
                self.sessions.insert(
                    guild.0,
                    Session { channel: handle.channel, current_track: Some(track) },
                );
                true
            },
            None => false,
        }
    }

    /// Empties the track slot of `guild`. Returns whether the guild is
    /// connected.
    pub fn clear_current_track(&mut self, guild: GuildId) -> (connected: bool)
        ensures
            final(self)@ == after_stop(old(self)@, guild),
            connected == old(self)@.contains_key(guild),
    {
        match self.get(guild) {
            Some(handle) => {
                self.sessions.insert(
                    guild.0,
                    Session { channel: handle.channel, current_track: None },
                );
                true
            },
            None => false,
        }
    }
}

} // verus!

use voice_session::ids::{ChannelId, GuildId, TrackId};
use voice_session::registry::{ConnectionHandle, Joined, LeaveError, SessionRegistry};

const GUILD: GuildId = GuildId(11);
const OTHER: GuildId = GuildId(12);
const LOBBY: ChannelId = ChannelId(100);
const STAGE: ChannelId = ChannelId(200);

#[test]
fn new_registry_connects_nobody() {
    let registry = SessionRegistry::new();
    assert_eq!(registry.len(), 0);
    assert_eq!(registry.get(GUILD), None);
    assert_eq!(registry.get(GuildId(0)), None);
    assert_eq!(registry.get(GuildId(u64::MAX)), None);
    assert_eq!(registry.current_track(GUILD), None);
}

#[test]
fn join_binds_the_guild_to_the_channel() {
    let mut registry = SessionRegistry::new();
    let joined = registry.join(GUILD, LOBBY);
    assert_eq!(
        joined,
        Joined { handle: ConnectionHandle { guild: GUILD, channel: LOBBY }, created: true }
    );
    assert_eq!(registry.get(GUILD), Some(ConnectionHandle { guild: GUILD, channel: LOBBY }));
    assert_eq!(registry.current_track(GUILD), None);
    assert_eq!(registry.get(OTHER), None);
    assert_eq!(registry.len(), 1);
}

#[test]
fn second_join_reuses_the_connection() {
    let mut registry = SessionRegistry::new();
    registry.join(GUILD, LOBBY);
    assert!(registry.set_current_track(GUILD, TrackId(5)));
    let again = registry.join(GUILD, STAGE);
    assert_eq!(
        again,
        Joined { handle: ConnectionHandle { guild: GUILD, channel: STAGE }, created: false }
    );
    assert_eq!(registry.len(), 1);
    assert_eq!(registry.get(GUILD), Some(ConnectionHandle { guild: GUILD, channel: STAGE }));
    assert_eq!(registry.current_track(GUILD), Some(TrackId(5)));
}

#[test]
fn second_join_of_the_same_channel_changes_nothing() {
    let mut registry = SessionRegistry::new();
    registry.join(GUILD, LOBBY);
    let again = registry.join(GUILD, LOBBY);
    assert!(!again.created);
    assert_eq!(registry.len(), 1);
    assert_eq!(registry.get(GUILD), Some(ConnectionHandle { guild: GUILD, channel: LOBBY }));
}

#[test]
fn guilds_are_kept_apart() {
    let mut registry = SessionRegistry::new();
    registry.join(GUILD, LOBBY);
    registry.join(OTHER, STAGE);
    assert_eq!(registry.len(), 2);
    assert!(registry.set_current_track(OTHER, TrackId(8)));
    assert_eq!(registry.current_track(GUILD), None);
    assert_eq!(registry.current_track(OTHER), Some(TrackId(8)));
    assert_eq!(registry.leave(GUILD), Ok(()));
    assert_eq!(registry.get(GUILD), None);
    assert_eq!(registry.get(OTHER), Some(ConnectionHandle { guild: OTHER, channel: STAGE }));
    assert_eq!(registry.current_track(OTHER), Some(TrackId(8)));
    assert_eq!(registry.len(), 1);
}

#[test]
fn leave_removes_the_connection_and_its_track() {
    let mut registry = SessionRegistry::new();
    registry.join(GUILD, LOBBY);
    registry.set_current_track(GUILD, TrackId(1));
    assert_eq!(registry.leave(GUILD), Ok(()));
    assert_eq!(registry.get(GUILD), None);
    assert_eq!(registry.current_track(GUILD), None);
    assert_eq!(registry.len(), 0);
    let fresh = registry.join(GUILD, LOBBY);
    assert!(fresh.created);
    assert_eq!(registry.current_track(GUILD), None);
}

#[test]
fn leave_without_a_connection_is_not_connected() {
    let mut registry = SessionRegistry::new();
    assert_eq!(registry.leave(GUILD), Err(LeaveError::NotConnected));
    registry.join(OTHER, LOBBY);
    assert_eq!(registry.leave(GUILD), Err(LeaveError::NotConnected));
    assert_eq!(registry.len(), 1);
    assert_eq!(registry.leave(OTHER), Ok(()));
    assert_eq!(registry.leave(OTHER), Err(LeaveError::NotConnected));
}

#[test]
fn track_slot_holds_the_last_track_only() {
    let mut registry = SessionRegistry::new();
    registry.join(GUILD, LOBBY);
    assert!(registry.set_current_track(GUILD, TrackId(1)));
    assert!(registry.set_current_track(GUILD, TrackId(2)));
    assert_eq!(registry.current_track(GUILD), Some(TrackId(2)));
    assert!(registry.clear_current_track(GUILD));
    assert_eq!(registry.current_track(GUILD), None);
    assert!(registry.clear_current_track(GUILD));
    assert_eq!(registry.get(GUILD), Some(ConnectionHandle { guild: GUILD, channel: LOBBY }));
}

#[test]
fn track_slot_needs_a_connection() {
    let mut registry = SessionRegistry::new();
    assert!(!registry.set_current_track(GUILD, TrackId(1)));
    assert_eq!(registry.current_track(GUILD), None);
    assert_eq!(registry.get(GUILD), None);
    assert!(!registry.clear_current_track(GUILD));
    assert_eq!(registry.len(), 0);
}

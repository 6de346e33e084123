//! Identities of guilds, voice channels and tracks.

use vstd::prelude::*;

verus! {

/// An independent chat community: the unit by which all voice state is kept
/// apart.
#[derive(Clone, Copy, Debug, PartialEq, Eq, Hash, Structural)]
pub struct GuildId(pub u64);

/// A voice channel of some guild.
#[derive(Clone, Copy, Debug, PartialEq, Eq, Hash, Structural)]
pub struct ChannelId(pub u64);

/// One playback instance, as the transport names it: the 128 bits of its
/// universally unique identifier.
#[derive(Clone, Copy, Debug, PartialEq, Eq, Hash, Structural)]
pub struct TrackId(pub u128);

} // verus!

//! The commands `help`, `join`, `leave`, `play` and `stop`.
//!
//! A command never talks to the voice transport itself. Its first function
//! decides, from the registry and its arguments, what to reply or what to
//! ask of the transport; where the transport is asked, a second function
//! takes its answer and records it.

use crate::ids::{ChannelId, GuildId, TrackId};
use crate::registry::{
    after_join, after_leave, after_start, after_stop, ConnectionHandle, Joined, SessionRegistry,
    Sessions,
};
use crate::resolver::{resolve, resolved, InputError, ResolvedSource, Source};
use crate::text::views;
use vstd::prelude::*;

verus! {

/// A message for the user who gave a command.
#[derive(Clone, Copy, Debug, PartialEq, Eq, Structural)]
pub enum Reply {
    /// The user, or the bot, is in no voice channel of the guild.
    NotInVoiceChannel,
    /// The bot has left its voice channel.
    LeftVoiceChannel,
    /// `play` was given no word at all.
    MustProvideUrl,
    /// `play` was given in a guild without a voice connection.
    NotInVoiceChannelToPlay,
    /// The track has been handed to the connection.
    PlayingSong,
    /// The source collaborator could not turn the input into a source.
    SourceUnavailable,
}

/// How a message reaches the user.
#[derive(Clone, Copy, Debug, PartialEq, Eq, Structural)]
pub enum Delivery {
    /// A plain message in the channel of the command.
    Say,
    /// An answer that refers to the message of the command.
    ReplyTo,
}

/// The answer of the voice transport to a request without a result.
#[derive(Clone, Copy, Debug, PartialEq, Eq, Structural)]
pub enum Transport {
    /// The request was carried out.
    Done,
    /// The transport could not carry it out.
    Failed,
}

/// A failure of the voice transport that ends a command.
#[derive(Clone, Copy, Debug, PartialEq, Eq, Structural)]
pub enum ConnectionError {
    /// The voice channel could not be joined.
    JoinFailed,
    /// The voice channel could not be left.
    DisconnectFailed,
}

/// The answer of the connection to the request to attach a source.
#[derive(Clone, Copy, Debug, PartialEq, Eq, Structural)]
pub enum AttachOutcome {
    /// The source was attached and plays as the given track.
    Started(TrackId),
    /// The source collaborator failed on the input.
    Failed,
    /// The transport no longer holds a connection for the guild.
    ConnectionLost,
}

/// What the help menu is asked to show.
#[derive(Clone, Debug, PartialEq, Eq)]
pub struct HelpRequest {
    /// The command to explain; `None` asks for the whole menu.
    pub command: Option<String>,
    /// The line below the menu.
    pub extra_text_at_bottom: &'static str,
}

/// What `join` decides.
#[derive(Clone, Copy, Debug, PartialEq, Eq, Structural)]
pub enum JoinStep {
    /// Nothing is asked of the transport; the user is told why.
    Notice(Reply),
    /// The transport is to connect the guild to the channel.
    Connect { guild: GuildId, channel: ChannelId },
}

/// What `leave` decides.
#[derive(Clone, Copy, Debug, PartialEq, Eq, Structural)]
pub enum LeaveStep {
    /// Nothing is asked of the transport; the user is told why.
    Notice(Reply),
    /// The transport is to tear down the connection of the guild.
    Disconnect { guild: GuildId },
}

/// What `play` decides.
#[derive(Clone, Debug, PartialEq, Eq)]
pub enum PlayStep {
    /// Nothing is asked of the transport; the user is told why.
    Notice(Reply),
    /// The connection of the guild is to attach the source.
    Attach { guild: GuildId, source: ResolvedSource },
}

/// The mathematical content of a [`PlayStep`].
pub enum PlayPlan {
    Notice(Reply),
    Attach { guild: GuildId, source: Source },
}

impl View for PlayStep {
    type V = PlayPlan;

    open spec fn view(&self) -> PlayPlan {
        match self {
            PlayStep::Notice(reply) => PlayPlan::Notice(*reply),
            PlayStep::Attach { guild, source } => PlayPlan::Attach {
                guild: *guild,
                source: source@,
            },
        }
    }
}

/// What `stop` decides. Neither case is announced to the user.
#[derive(Clone, Copy, Debug, PartialEq, Eq, Structural)]
pub enum StopStep {
    /// The guild has no connection: nothing is to be done.
    Idle,
    /// The connection of the guild is to halt all playback.
    Halt { guild: GuildId },
}

/// The words of a reply.
pub open spec fn reply_text(reply: Reply) -> Seq<char> {
    match reply {
        Reply::NotInVoiceChannel => "Not in a voice channel"@,
        Reply::LeftVoiceChannel => "Left voice channel"@,
        Reply::MustProvideUrl => "Must provide a URL to a video or audio"@,
        Reply::NotInVoiceChannelToPlay => "Not in a voice channel to play in"@,
        Reply::PlayingSong => "Playing song"@,
        Reply::SourceUnavailable => "Could not load the audio source"@,
    }
}

/// How a reply is delivered: only the notice that nothing is connected
/// refers to the message of the command.
pub open spec fn reply_delivery(reply: Reply) -> Delivery {
    match reply {
        Reply::NotInVoiceChannel => Delivery::ReplyTo,
        _ => Delivery::Say,
    }
}

/// The decision of `join`: a user who is in no voice channel is told so, and
/// the transport is not asked; otherwise the guild is to be connected to
/// the user's channel.
pub open spec fn join_step(guild: GuildId, user_channel: Option<ChannelId>) -> JoinStep {
    match user_channel {
        Some(channel) => JoinStep::Connect { guild, channel },
        None => JoinStep::Notice(Reply::NotInVoiceChannel),
    }
}

/// The decision of `leave`, from the sessions before it.
pub open spec fn leave_step(sessions: Sessions, guild: GuildId) -> LeaveStep {
    if sessions.contains_key(guild) {
        LeaveStep::Disconnect { guild }
    } else {
        LeaveStep::Notice(Reply::NotInVoiceChannel)
    }
}

/// The decision of `play`: the words are read first, then the connection is
/// looked up. `play` never joins by itself.
pub open spec fn play_step(sessions: Sessions, guild: GuildId, words: Seq<Seq<char>>) -> PlayPlan {
    match resolved(words) {
        Err(_) => PlayPlan::Notice(Reply::MustProvideUrl),
        Ok(source) => if sessions.contains_key(guild) {
            PlayPlan::Attach { guild, source }
        } else {
            PlayPlan::Notice(Reply::NotInVoiceChannelToPlay)
        },
    }
}

/// The reply of `play` once the connection has answered.
pub open spec fn play_reply(sessions: Sessions, guild: GuildId, outcome: AttachOutcome) -> Reply {
    match outcome {
        AttachOutcome::Started(_) => if sessions.contains_key(guild) {
            Reply::PlayingSong
        } else {
            Reply::NotInVoiceChannelToPlay
        },
        AttachOutcome::Failed => Reply::SourceUnavailable,
        AttachOutcome::ConnectionLost => Reply::NotInVoiceChannelToPlay,
    }
}

/// The sessions after `play`, once the connection has answered: a started
/// track takes the slot of the guild, a source that failed leaves everything
/// as it was, and a connection that the transport has lost is forgotten.
pub open spec fn after_play(sessions: Sessions, guild: GuildId, outcome: AttachOutcome) -> Sessions {
    match outcome {
        AttachOutcome::Started(track) => after_start(sessions, guild, track),
        AttachOutcome::Failed => sessions,
        AttachOutcome::ConnectionLost => after_leave(sessions, guild),
    }
}

/// The decision of `stop`, from the sessions before it.
pub open spec fn stop_step(sessions: Sessions, guild: GuildId) -> StopStep {
    if sessions.contains_key(guild) {
        StopStep::Halt { guild }
    } else {
        StopStep::Idle
    }
}

impl Reply {
    /// The words to send.
    pub fn text(&self) -> (text: &'static str)
        ensures
            text@ == reply_text(*self),
    {
        match self {
            Reply::NotInVoiceChannel => "Not in a voice channel",
            Reply::LeftVoiceChannel => "Left voice channel",
            Reply::MustProvideUrl => "Must provide a URL to a video or audio",
            Reply::NotInVoiceChannelToPlay => "Not in a voice channel to play in",
            Reply::PlayingSong => "Playing song",
            Reply::SourceUnavailable => "Could not load the audio source",
        }
    }

    /// How to send them.
    pub fn delivery(&self) -> (delivery: Delivery)
        ensures
            delivery == reply_delivery(*self),
    {
        match self {
            Reply::NotInVoiceChannel => Delivery::ReplyTo,
            _ => Delivery::Say,
        }
    }
}

/// `help`: asks for the menu, or for one command of it, with the fixed line
/// below.
pub fn help(command: Option<String>) -> (request: HelpRequest)
    ensures
        request.command == command,
        request.extra_text_at_bottom@ == "This is not a bot"@,
{
    HelpRequest { command, extra_text_at_bottom: "This is not a bot" }
}

/// `join`: decides whether to connect `guild`, given the voice channel in
/// which the user who asked is, if any.
pub fn join(guild: GuildId, user_channel: Option<ChannelId>) -> (step: JoinStep)
    ensures
        step == join_step(guild, user_channel),
{
    match user_channel {
        Some(channel) => JoinStep::Connect { guild, channel },
        None => JoinStep::Notice(Reply::NotInVoiceChannel),
    }
}

/// `join`, once the transport has answered the request to connect.
///
/// A connection that succeeded is registered; `created` in the result says
/// whether the error observer is to be attached, which happens once per
/// connection. A connection that failed changes nothing. Neither outcome is
/// announced to the user.
pub fn join_connected(
    registry: &mut SessionRegistry,
    guild: GuildId,
    channel: ChannelId,
    outcome: Transport,
) -> (result: Result<Joined, ConnectionError>)
    ensures
        outcome == Transport::Done ==> {
            &&& final(registry)@ == after_join(old(registry)@, guild, channel)
            &&& result == Ok::<Joined, ConnectionError>(
                Joined {
                    handle: ConnectionHandle { guild, channel },
                    created: !old(registry)@.contains_key(guild),
                },
            )
        },
        outcome == Transport::Failed ==> {
            &&& final(registry)@ == old(registry)@
            &&& result == Err::<Joined, ConnectionError>(ConnectionError::JoinFailed)
        },
{
    match outcome {
        Transport::Done => Ok(registry.join(guild, channel)),
        Transport::Failed => Err(ConnectionError::JoinFailed),
    }
}

/// `leave`: removes the entry of `guild` at once, whatever the transport
/// will answer, and asks for the connection to be torn down. A guild
/// without a connection is told so.
pub fn leave(registry: &mut SessionRegistry, guild: GuildId) -> (step: LeaveStep)
    ensures
        final(registry)@ == after_leave(old(registry)@, guild),
        step == leave_step(old(registry)@, guild),
{
    match registry.leave(guild) {
        Ok(()) => LeaveStep::Disconnect { guild },
        Err(_) => LeaveStep::Notice(Reply::NotInVoiceChannel),
    }
}

/// `leave`, once the transport has answered the request to disconnect.
pub fn leave_disconnected(outcome: Transport) -> (result: Result<Reply, ConnectionError>)
    ensures
        outcome == Transport::Done ==> result == Ok::<Reply, ConnectionError>(
            Reply::LeftVoiceChannel,
        ),
        outcome == Transport::Failed ==> result == Err::<Reply, ConnectionError>(
            ConnectionError::DisconnectFailed,
        ),
{
    match outcome {
        Transport::Done => Ok(Reply::LeftVoiceChannel),
        Transport::Failed => Err(ConnectionError::DisconnectFailed),
    }
}

/// `play`: reads the words and looks up the connection of `guild`. The
/// registry is not changed.
pub fn play(registry: &SessionRegistry, guild: GuildId, input_query: Vec<String>) -> (step:
    PlayStep)
    ensures
        step@ == play_step(registry@, guild, views(input_query@)),
{
    match resolve(&input_query) {
        Err(InputError::Empty) => PlayStep::Notice(Reply::MustProvideUrl),
        Ok(source) => {
            if registry.get(guild).is_some() {
                PlayStep::Attach { guild, source }
            } else {
                PlayStep::Notice(Reply::NotInVoiceChannelToPlay)
            }
        },
    }
}

/// `play`, once the connection has answered the request to attach.
///
/// A started track overwrites the slot of the guild: the last writer wins.
/// Where the guild has lost its connection in the meantime nothing is
/// recorded and the user is told that nothing is connected; where the
/// transport reports the connection lost, the registry forgets it too.
pub fn play_attached(registry: &mut SessionRegistry, guild: GuildId, outcome: AttachOutcome) -> (reply:
    Reply)
    ensures
        final(registry)@ == after_play(old(registry)@, guild, outcome),
        reply == play_reply(old(registry)@, guild, outcome),
{
    match outcome {
        AttachOutcome::Started(track) => {
            if registry.set_current_track(guild, track) {
                Reply::PlayingSong
            } else {
                Reply::NotInVoiceChannelToPlay
            }
        },
        AttachOutcome::Failed => Reply::SourceUnavailable,
        AttachOutcome::ConnectionLost => {
            let _ = registry.leave(guild);
            Reply::NotInVoiceChannelToPlay
        },
    }
}

/// `stop`: empties the slot of `guild` and asks its connection to halt all
/// playback. A guild without a connection is left alone, silently. The
/// words given to the command are not read.
pub fn stop(registry: &mut SessionRegistry, guild: GuildId, input_query: Vec<String>) -> (step:
    StopStep)
    ensures
        final(registry)@ == after_stop(old(registry)@, guild),
        step == stop_step(old(registry)@, guild),
{
    if registry.clear_current_track(guild) {
        StopStep::Halt { guild }
    } else {
        StopStep::Idle
    }
}

} // verus!

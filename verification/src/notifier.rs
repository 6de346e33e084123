//! The track error notifier: a passive observer that turns the tracks
//! reported as failed into diagnostic records.

use crate::ids::TrackId;
use crate::text::views;
use vstd::arithmetic::power::pow;
use vstd::prelude::*;
use vstd::string::StringExecFns;

verus! {

/// Playback status of a track, as last known to the transport.
#[derive(Clone, Debug, PartialEq, Eq)]
pub enum PlayStatus {
    /// The track is playing.
    Play,
    /// The track is paused and may be resumed.
    Pause,
    /// The track was stopped by hand.
    Stop,
    /// The track ran to its end.
    End,
    /// The track failed; the text says how.
    Errored(String),
}

/// One track of an error report: which track, and in what state.
#[derive(Clone, Debug, PartialEq, Eq)]
pub struct TrackReport {
    pub track: TrackId,
    pub status: PlayStatus,
}

/// What the transport hands to an observer.
#[derive(Clone, Debug, PartialEq, Eq)]
pub enum EventContext {
    /// Tracks of one connection that the event fired for.
    Track(Vec<TrackReport>),
    /// Any event that carries no tracks.
    Other,
}

/// The events an observer can be attached to.
#[derive(Clone, Copy, Debug, PartialEq, Eq, Structural)]
pub enum Event {
    /// A track of the connection entered an error state.
    TrackError,
}

/// What the notifier makes of one event.
#[derive(Clone, Debug, PartialEq, Eq)]
pub struct Notification {
    /// One diagnostic line per reported track, in the order reported.
    pub records: Vec<String>,
    /// The event to attach the observer to next; `None` leaves it as it is.
    pub follow_up: Option<Event>,
}

/// The lower-case hexadecimal digit for a value from 0 to 15.
pub open spec fn hex_digit(value: int) -> char {
    seq!['0', '1', '2', '3', '4', '5', '6', '7', '8', '9', 'a', 'b', 'c', 'd', 'e', 'f'][value]
}

/// The hexadecimal digit of `id` at `place`, counted from the most
/// significant of its 32 digits.
pub open spec fn nibble(id: u128, place: int) -> int {
    (id as int / pow(16, (31 - place) as nat)) % 16
}

/// How many hyphens stand before position `at` of a hyphenated identity.
pub open spec fn hyphens_before(at: int) -> int {
    if at < 8 {
        0
    } else if at < 13 {
        1
    } else if at < 18 {
        2
    } else if at < 23 {
        3
    } else {
        4
    }
}

/// The 36 characters of an identity in hyphenated form: its 32 lower-case
/// hexadecimal digits, most significant first, in groups of 8, 4, 4, 4 and
/// 12 with a hyphen between groups.
pub open spec fn hyphenated(id: u128) -> Seq<char> {
    Seq::new(
        36,
        |at: int|
            if at == 8 || at == 13 || at == 18 || at == 23 {
                '-'
            } else {
                hex_digit(nibble(id, at - hyphens_before(at)))
            },
    )
}

/// The name of a status as it appears in a diagnostic line.
pub open spec fn status_text(status: PlayStatus) -> Seq<char> {
    match status {
        PlayStatus::Play => "Play"@,
        PlayStatus::Pause => "Pause"@,
        PlayStatus::Stop => "Stop"@,
        PlayStatus::End => "End"@,
        PlayStatus::Errored(detail) => "Errored("@ + detail@ + ")"@,
    }
}

/// The diagnostic line for one reported track.
pub open spec fn diagnostic(report: TrackReport) -> Seq<char> {
    "Track "@ + hyphenated(report.track.0) + " encountered an error: "@ + status_text(
        report.status,
    )
}

/// The diagnostic lines for an event: one per reported track, in order, and
/// none for an event without tracks.
pub open spec fn diagnostics(ctx: EventContext) -> Seq<Seq<char>> {
    match ctx {
        EventContext::Track(reports) => Seq::new(
            reports@.len(),
            |i: int| diagnostic(reports@[i]),
        ),
        EventContext::Other => Seq::empty(),
    }
}

/// Renders a track's identity as text.
///
/// Trusted: the body builds a `uuid::Uuid` with `Uuid::from_u128` and formats
/// it with the `Debug` impl of `Uuid`. The contract claims that this gives
/// the hyphenated lower-case form of the 128 bits, big end first.
#[verifier::external_body]
fn track_id_text(track: TrackId) -> (text: String)
    ensures
        text@ == hyphenated(track.0),
{
    format!("{:?}", uuid::Uuid::from_u128(track.0))
}

/// Renders a status for a diagnostic line.
pub fn status_name(status: &PlayStatus) -> (name: String)
    ensures
        name@ == status_text(*status),
{
    match status {
        PlayStatus::Play => String::from_str("Play"),
        PlayStatus::Pause => String::from_str("Pause"),
        PlayStatus::Stop => String::from_str("Stop"),
        PlayStatus::End => String::from_str("End"),
        PlayStatus::Errored(detail) => {
            let mut name = String::from_str("Errored(");
            name.append(detail.as_str());
            name.append(")");
            name
        },
    }
}

/// Renders the diagnostic line for one reported track.
pub fn diagnostic_line(report: &TrackReport) -> (line: String)
    ensures
        line@ == diagnostic(*report),
{
    let mut line = String::from_str("Track ");
    line.append(track_id_text(report.track).as_str());
    line.append(" encountered an error: ");
    line.append(status_name(&report.status).as_str());
    line
}

/// The observer attached to every voice connection when it is created.
#[derive(Clone, Copy, Debug, PartialEq, Eq)]
pub struct TrackErrorNotifier;

impl TrackErrorNotifier {
    /// The event the notifier is attached to.
    pub fn event(&self) -> (event: Event)
        ensures
            event == Event::TrackError,
    {
        Event::TrackError
    }

    /// Handles one event from the transport. Every reported track yields one
    /// diagnostic line; nothing else happens, and no follow-up is asked for.
    pub fn act(&self, ctx: &EventContext) -> (out: Notification)
        ensures
            views(out.records@) == diagnostics(*ctx),
            out.follow_up is None,
    {
        let mut records: Vec<String> = Vec::new();
        if let EventContext::Track(reports) = ctx {
            let mut i: usize = 0;
            while i < reports.len()
                invariant
                    i <= reports.len(),
                    records@.len() == i,
                    forall|k: int|
                        0 <= k < i ==> (#[trigger] records@[k])@ == diagnostic(reports@[k]),
                decreases reports.len() - i,
            {
                records.push(diagnostic_line(&reports[i]));
                i += 1;
            }
        }
        Notification { records, follow_up: None }
    }
}

} // verus!

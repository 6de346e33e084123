use voice_session::ids::TrackId;
use voice_session::notifier::{
    diagnostic_line, status_name, Event, EventContext, Notification, PlayStatus, TrackErrorNotifier,
    TrackReport,
};

#[test]
fn notifier_listens_for_track_errors() {
    assert_eq!(TrackErrorNotifier.event(), Event::TrackError);
}

#[test]
fn act_reports_every_track_and_asks_for_nothing() {
    let ctx = EventContext::Track(vec![
        TrackReport {
            track: TrackId(0x67e5504410b1426f9247bb680e5fe0c8),
            status: PlayStatus::Errored("Parse".to_string()),
        },
        TrackReport { track: TrackId(1), status: PlayStatus::Pause },
    ]);
    assert_eq!(
        TrackErrorNotifier.act(&ctx),
        Notification {
            records: vec![
                "Track 67e55044-10b1-426f-9247-bb680e5fe0c8 encountered an error: Errored(Parse)"
                    .to_string(),
                "Track 00000000-0000-0000-0000-000000000001 encountered an error: Pause"
                    .to_string(),
            ],
            follow_up: None,
        }
    );
}

#[test]
fn act_on_no_tracks_reports_nothing() {
    assert_eq!(
        TrackErrorNotifier.act(&EventContext::Track(Vec::new())),
        Notification { records: Vec::new(), follow_up: None }
    );
    assert_eq!(
        TrackErrorNotifier.act(&EventContext::Other),
        Notification { records: Vec::new(), follow_up: None }
    );
}

#[test]
fn diagnostic_line_names_track_and_status() {
    let report = TrackReport {
        track: TrackId(0xa1a2a3a4b1b2c1c2d1d2d3d4d5d6d7d8),
        status: PlayStatus::Play,
    };
    assert_eq!(
        diagnostic_line(&report),
        "Track a1a2a3a4-b1b2-c1c2-d1d2-d3d4d5d6d7d8 encountered an error: Play"
    );
    let last = TrackReport { track: TrackId(u128::MAX), status: PlayStatus::End };
    assert_eq!(
        diagnostic_line(&last),
        "Track ffffffff-ffff-ffff-ffff-ffffffffffff encountered an error: End"
    );
    let zero = TrackReport { track: TrackId(0), status: PlayStatus::Stop };
    assert_eq!(
        diagnostic_line(&zero),
        "Track 00000000-0000-0000-0000-000000000000 encountered an error: Stop"
    );
}

#[test]
fn status_names_are_fixed() {
    assert_eq!(status_name(&PlayStatus::Play), "Play");
    assert_eq!(status_name(&PlayStatus::Pause), "Pause");
    assert_eq!(status_name(&PlayStatus::Stop), "Stop");
    assert_eq!(status_name(&PlayStatus::End), "End");
    assert_eq!(status_name(&PlayStatus::Errored(String::new())), "Errored()");
    assert_eq!(
        status_name(&PlayStatus::Errored("Create(Timeout)".to_string())),
        "Errored(Create(Timeout))"
    );
}

use spotipy::args::{cli, select_mode, Mode};
use spotipy::credentials::{AuthScheme, CredentialRecord, StoreContent};
use spotipy::device::DeviceClass;
use spotipy::failure::Failure;
use spotipy::flow::{step, Action, Event, Phase};
use spotipy::media::{MediaId, MediaKind};

fn invoked(subcommand: Option<&str>, operands: &[&str]) -> Event {
    Event::Invoked {
        subcommand: subcommand.map(String::from),
        operands: operands.iter().map(|s| String::from(*s)).collect(),
    }
}

fn record(name: &str) -> CredentialRecord {
    CredentialRecord {
        username: String::from(name),
        auth_type: AuthScheme::UserPass,
        auth_data: String::from("b3BhcXVl"),
    }
}

fn is_exit(action: &Action, want_status: u8, want: Option<Failure>) -> bool {
    matches!(action, Action::Exit { status, failure } if *status == want_status && *failure == want)
}

#[test]
fn cli_describes_both_subcommands() {
    let c = cli();
    assert_eq!(c.name, "spotipy");
    assert_eq!(c.subcommands.len(), 2);
    let discover = &c.subcommands[0];
    assert_eq!(discover.name, "discover");
    assert_eq!(discover.short_flag, 'D');
    assert_eq!(discover.long_flag, "discover");
    assert_eq!(
        discover.about,
        "Use zeroconf to discover a spotify instance, fetch the credentials and save them"
    );
    assert!(discover.args.is_empty());
    let play = &c.subcommands[1];
    assert_eq!(play.name, "play");
    assert_eq!(play.short_flag, 'P');
    assert_eq!(play.long_flag, "play");
    assert_eq!(
        play.about,
        "Play a track using the track_id of spotify for example: spotify:track:76K8P2HwfKq8gPxOWoBQkG"
    );
    assert_eq!(play.args.len(), 1);
    assert_eq!(play.args[0].name, "track");
    assert_eq!(play.args[0].help, "track");
    assert!(play.args[0].stores_value);
    assert_eq!(play.args[0].num_args, 1);
}

#[test]
fn select_mode_accepts_the_two_shapes() {
    assert!(matches!(select_mode(Some(String::from("discover")), vec![]), Ok(Mode::Discover)));
    let play = select_mode(Some(String::from("play")), vec![String::from("spotify:track:x")]);
    assert!(matches!(play, Ok(Mode::Play { media }) if media == "spotify:track:x"));
}

#[test]
fn select_mode_rejects_every_other_shape() {
    let bad: Vec<(Option<&str>, Vec<&str>)> = vec![
        (None, vec![]),
        (None, vec!["spotify:track:x"]),
        (Some("play"), vec![]),
        (Some("play"), vec!["a", "b"]),
        (Some("discover"), vec!["a"]),
        (Some("stop"), vec![]),
        (Some("Play"), vec!["a"]),
        (Some(""), vec![]),
    ];
    for (subcommand, operands) in bad {
        let out = select_mode(
            subcommand.map(String::from),
            operands.into_iter().map(String::from).collect(),
        );
        assert!(matches!(out, Err(Failure::Usage)));
    }
}

#[test]
fn play_with_wrong_operand_count_is_usage_error_before_anything_else() {
    for operands in [vec![], vec!["spotify:track:a", "spotify:track:b"]] {
        let (phase, action) = step(Phase::Idle, invoked(Some("play"), &operands));
        assert!(matches!(phase, Phase::Failed(Failure::Usage)));
        assert!(is_exit(&action, 2, Some(Failure::Usage)));
        let (phase, action) = step(phase, Event::Connected);
        assert!(matches!(phase, Phase::Failed(Failure::Usage)));
        assert!(matches!(action, Action::Ignore));
    }
}

#[test]
fn no_subcommand_is_usage_error() {
    let (phase, action) = step(Phase::Idle, invoked(None, &[]));
    assert!(matches!(phase, Phase::Failed(Failure::Usage)));
    assert!(is_exit(&action, 2, Some(Failure::Usage)));
}

#[test]
fn play_without_credentials_is_not_found_and_never_connects() {
    let (phase, action) = step(Phase::Idle, invoked(Some("play"), &["spotify:track:76K8P2HwfKq8gPxOWoBQkG"]));
    assert!(matches!(&phase, Phase::Reading { media } if media == "spotify:track:76K8P2HwfKq8gPxOWoBQkG"));
    assert!(matches!(action, Action::ReadStore { path } if path == "cache/credentials.json"));
    let (phase, action) = step(phase, Event::StoreRead(StoreContent::Missing));
    assert!(matches!(phase, Phase::Failed(Failure::NotFound)));
    assert!(is_exit(&action, 1, Some(Failure::NotFound)));
    let (phase, action) = step(phase, Event::Connected);
    assert!(matches!(phase, Phase::Failed(Failure::NotFound)));
    assert!(matches!(action, Action::Ignore));
}

#[test]
fn play_with_corrupt_or_unreadable_store_fails() {
    let start = || Phase::Reading { media: String::from("spotify:track:76K8P2HwfKq8gPxOWoBQkG") };
    let (phase, action) = step(start(), Event::StoreRead(StoreContent::Text(String::from("{oops"))));
    assert!(matches!(phase, Phase::Failed(Failure::Corrupt)));
    assert!(is_exit(&action, 1, Some(Failure::Corrupt)));
    let (phase, action) = step(start(), Event::StoreRead(StoreContent::Unreadable));
    assert!(matches!(phase, Phase::Failed(Failure::Io)));
    assert!(is_exit(&action, 1, Some(Failure::Io)));
}

#[test]
fn play_runs_to_the_end_of_the_track() {
    let text = "{\"username\":\"u1\",\"auth_type\":\"AUTHENTICATION_USER_PASS\",\"auth_data\":\"<opaque>\"}";
    let events = vec![
        invoked(Some("play"), &["spotify:track:76K8P2HwfKq8gPxOWoBQkG"]),
        Event::StoreRead(StoreContent::Text(String::from(text))),
        Event::Connected,
        Event::LoadAccepted,
        Event::EndOfTrack,
    ];
    let mut phase = Phase::Idle;
    let mut loads = 0;
    let mut connects = 0;
    let mut status = None;
    for event in events {
        let (following, action) = step(phase, event);
        phase = following;
        match action {
            Action::Connect { record: r } => {
                connects += 1;
                assert_eq!(r.username, "u1");
                assert_eq!(r.auth_type, AuthScheme::UserPass);
                assert_eq!(r.auth_data, "<opaque>");
            }
            Action::Load { media, start_playing, position } => {
                loads += 1;
                assert_eq!(
                    media,
                    MediaId { kind: MediaKind::Track, id: 310470560866401799461670924584046186730 }
                );
                assert!(start_playing);
                assert_eq!(position, 0);
            }
            Action::Exit { status: code, failure } => {
                assert_eq!(failure, None);
                status = Some(code);
            }
            Action::ReadStore { .. } | Action::AwaitEndOfTrack => {}
            _ => panic!("an action that play never asks for"),
        }
    }
    assert!(matches!(phase, Phase::Ended));
    assert_eq!(connects, 1);
    assert_eq!(loads, 1);
    assert_eq!(status, Some(0));
}

#[test]
fn discover_takes_only_the_first_device() {
    let (phase, action) = step(Phase::Idle, invoked(Some("discover"), &[]));
    assert!(matches!(phase, Phase::Listening));
    match action {
        Action::Subscribe { device_identity, device_class } => {
            assert_eq!(device_identity, "7df5cd283407ec72d9b8f46d2735bea7b0787f36");
            assert_eq!(device_class, DeviceClass::Speaker);
        }
        _ => panic!("discover subscribes first"),
    }
    let (phase, action) = step(phase, Event::DeviceFound(record("first")));
    assert!(matches!(phase, Phase::Persisting));
    match action {
        Action::CancelAndStore { path, text } => {
            assert_eq!(path, "cache/credentials.json");
            assert_eq!(text, record("first").encode());
            let kept = CredentialRecord::decode(&text).ok().expect("a record");
            assert!(kept.same_as(&record("first")));
        }
        _ => panic!("the first device is persisted"),
    }
    let (phase, action) = step(phase, Event::DeviceFound(record("second")));
    assert!(matches!(phase, Phase::Persisting));
    assert!(matches!(action, Action::Ignore));
    let (phase, action) = step(phase, Event::Stored);
    assert!(matches!(phase, Phase::Ended));
    assert!(is_exit(&action, 0, None));
}

#[test]
fn discover_failures_are_reported() {
    let (phase, action) = step(Phase::Listening, Event::ListenerClosed);
    assert!(matches!(phase, Phase::Failed(Failure::Discovery)));
    assert!(is_exit(&action, 1, Some(Failure::Discovery)));
    let (phase, action) = step(Phase::Persisting, Event::StoreFailed);
    assert!(matches!(phase, Phase::Failed(Failure::Io)));
    assert!(is_exit(&action, 1, Some(Failure::Io)));
}

#[test]
fn rejected_credentials_end_the_run_without_load() {
    let start = || Phase::Connecting { media: String::from("spotify:track:76K8P2HwfKq8gPxOWoBQkG") };
    let (phase, action) = step(start(), Event::Rejected);
    assert!(matches!(phase, Phase::Failed(Failure::AuthenticationFailed)));
    assert!(is_exit(&action, 1, Some(Failure::AuthenticationFailed)));
    for event in [Event::Connected, Event::LoadAccepted, Event::EndOfTrack] {
        let (phase, action) = step(Phase::Failed(Failure::AuthenticationFailed), event);
        assert!(matches!(phase, Phase::Failed(Failure::AuthenticationFailed)));
        assert!(matches!(action, Action::Ignore));
    }
    let (phase, action) = step(start(), Event::TransportFailed);
    assert!(matches!(phase, Phase::Failed(Failure::Network)));
    assert!(is_exit(&action, 1, Some(Failure::Network)));
}

#[test]
fn invalid_identifier_is_found_before_any_load() {
    let (phase, action) = step(Phase::Connecting { media: String::from("spotify:track:XXXX") }, Event::Connected);
    assert!(matches!(phase, Phase::Failed(Failure::InvalidIdentifier)));
    assert!(is_exit(&action, 1, Some(Failure::InvalidIdentifier)));
}

#[test]
fn playback_failures_are_final() {
    let (phase, action) = step(Phase::Loaded, Event::LoadRejected);
    assert!(matches!(phase, Phase::Failed(Failure::Load)));
    assert!(is_exit(&action, 1, Some(Failure::Load)));
    let (phase, action) = step(Phase::Loaded, Event::LoadAccepted);
    assert!(matches!(phase, Phase::Playing));
    assert!(matches!(action, Action::AwaitEndOfTrack));
    let (phase, action) = step(phase, Event::SessionLost);
    assert!(matches!(phase, Phase::Failed(Failure::SessionDropped)));
    assert!(is_exit(&action, 1, Some(Failure::SessionDropped)));
    let (phase, action) = step(Phase::Loaded, Event::SessionLost);
    assert!(matches!(phase, Phase::Failed(Failure::SessionDropped)));
    assert!(is_exit(&action, 1, Some(Failure::SessionDropped)));
    let (phase, action) = step(Phase::Ended, Event::EndOfTrack);
    assert!(matches!(phase, Phase::Ended));
    assert!(matches!(action, Action::Ignore));
}

#[test]
fn unexpected_events_change_nothing() {
    let (phase, action) = step(Phase::Idle, Event::EndOfTrack);
    assert!(matches!(phase, Phase::Idle));
    assert!(matches!(action, Action::Ignore));
    let (phase, action) = step(Phase::Listening, Event::Stored);
    assert!(matches!(phase, Phase::Listening));
    assert!(matches!(action, Action::Ignore));
    let (phase, action) = step(Phase::Playing, invoked(Some("discover"), &[]));
    assert!(matches!(phase, Phase::Playing));
    assert!(matches!(action, Action::Ignore));
}

#[test]
fn unusable_record_is_corrupt_and_no_handshake_result_is_claimed() {
    let start = Phase::Connecting { media: String::from("spotify:track:76K8P2HwfKq8gPxOWoBQkG") };
    let (phase, action) = step(start, Event::RecordUnusable);
    assert!(matches!(phase, Phase::Failed(Failure::Corrupt)));
    assert!(is_exit(&action, 1, Some(Failure::Corrupt)));
    let (phase, action) = step(Phase::Reading { media: String::from("m") }, Event::RecordUnusable);
    assert!(matches!(phase, Phase::Reading { .. }));
    assert!(matches!(action, Action::Ignore));
}

use spotipy::device::{device_identity, device_name, DeviceClass};
use spotipy::failure::{exit_status, Failure};
use spotipy::media::{
    digit_of, id_too_large, is_base62, parse_base62, parse_media, MediaId, MediaKind,
};

#[test]
fn parse_media_reads_a_track() {
    let media = parse_media("spotify:track:76K8P2HwfKq8gPxOWoBQkG");
    assert_eq!(
        media,
        Ok(MediaId { kind: MediaKind::Track, id: 310470560866401799461670924584046186730 })
    );
}

#[test]
fn parse_media_reads_long_and_empty_kinds() {
    assert_eq!(
        parse_media("spotify::7N42dgm5tFLK9N8MT7fHC7"),
        Ok(MediaId { kind: MediaKind::NonPlayable, id: u128::MAX })
    );
    assert_eq!(
        parse_media("spotify:user:name:playlist:0000000000000000000010"),
        Ok(MediaId { kind: MediaKind::NonPlayable, id: 62 })
    );
}

#[test]
fn parse_media_reads_kinds() {
    assert_eq!(
        parse_media("spotify:episode:0000000000000000000001"),
        Ok(MediaId { kind: MediaKind::Podcast, id: 1 })
    );
    assert_eq!(
        parse_media("spotify:album:000000000000000000000z"),
        Ok(MediaId { kind: MediaKind::NonPlayable, id: 35 })
    );
    assert_eq!(
        parse_media("spotify:caf\u{e9}:000000000000000000000Z"),
        Ok(MediaId { kind: MediaKind::NonPlayable, id: 61 })
    );
    assert_eq!(
        parse_media("spotify:Track:0000000000000000000000"),
        Ok(MediaId { kind: MediaKind::NonPlayable, id: 0 })
    );
}

#[test]
fn parse_media_rejects_malformed_text() {
    for uri in [
        "",
        "spotify:track:XXXX",
        "spotify:track:76K8P2HwfKq8gPxOWoBQk",
        "spotify:track76K8P2HwfKq8gPxOWoBQkG",
        "spotify:track:76K8P2HwfKq8gPxOWoBQk!",
        "spotify:track:76K8P2Hwf q8gPxOWoBQkG",
        "Spotify:track:76K8P2HwfKq8gPxOWoBQkG",
        "76K8P2HwfKq8gPxOWoBQkG",
        "spotify:76K8P2HwfKq8gPxOWoBQkG",
        "spotify:track:76K8P2HwfKq8gPxOWoBQk\u{e9}",
    ] {
        assert_eq!(parse_media(uri), Err(Failure::InvalidIdentifier));
    }
}

#[test]
fn parse_media_bounds_the_id_at_128_bits() {
    assert_eq!(
        parse_media("spotify:track:7N42dgm5tFLK9N8MT7fHC7"),
        Ok(MediaId { kind: MediaKind::Track, id: u128::MAX })
    );
    assert_eq!(
        parse_media("spotify:track:7N42dgm5tFLK9N8MT7fHC8"),
        Err(Failure::InvalidIdentifier)
    );
    assert_eq!(
        parse_media("spotify:track:zzzzzzzzzzzzzzzzzzzzzz"),
        Err(Failure::InvalidIdentifier)
    );
}

#[test]
fn parse_media_matches_the_session_library() {
    for uri in [
        "spotify:track:76K8P2HwfKq8gPxOWoBQkG",
        "spotify:episode:0000000000000000000001",
        "spotify:album:4uLU6hMCjMI75M1A2tKUQC",
        "spotify::7N42dgm5tFLK9N8MT7fHC7",
    ] {
        let ours = parse_media(uri).expect("accepted");
        let theirs = librespot::core::spotify_id::SpotifyId::from_uri(uri).ok().expect("accepted");
        assert_eq!(ours.id, theirs.id);
    }
}

#[test]
fn id_too_large_looks_at_the_last_22_digits() {
    assert!(id_too_large("spotify:track:7N42dgm5tFLK9N8MT7fHC8"));
    assert!(id_too_large("zzzzzzzzzzzzzzzzzzzzzz"));
    assert!(!id_too_large("spotify:track:7N42dgm5tFLK9N8MT7fHC7"));
    assert!(!id_too_large("zzzzzzzzzzzzzzzzzzzzz"));
    assert!(!id_too_large("spotify:track:zzzzzzzzzzzzzzzzzzzzz!"));
    assert!(!id_too_large(""));
    assert!(is_base62("09azAZ"));
    assert!(is_base62(""));
    assert!(!is_base62("09:az"));
}

#[test]
fn base62_digits_and_numbers() {
    assert_eq!(digit_of('0'), Some(0));
    assert_eq!(digit_of('9'), Some(9));
    assert_eq!(digit_of('a'), Some(10));
    assert_eq!(digit_of('z'), Some(35));
    assert_eq!(digit_of('A'), Some(36));
    assert_eq!(digit_of('Z'), Some(61));
    assert_eq!(digit_of(':'), None);
    assert_eq!(digit_of('\u{e9}'), None);
    assert_eq!(parse_base62(""), Some(0));
    assert_eq!(parse_base62("10"), Some(62));
    assert_eq!(parse_base62("1Z"), Some(123));
    assert_eq!(parse_base62("a_"), None);
    assert_eq!(parse_base62("7N42dgm5tFLK9N8MT7fHC8"), None);
}

#[test]
fn device_identity_is_hex_of_sha1() {
    assert_eq!(device_name(), "ConnectExample");
    assert_eq!(device_identity("ConnectExample"), "7df5cd283407ec72d9b8f46d2735bea7b0787f36");
    assert_eq!(device_identity(""), "da39a3ee5e6b4b0d3255bfef95601890afd80709");
    assert_eq!(device_identity("ConnectExample").len(), 40);
    assert_ne!(DeviceClass::Speaker, DeviceClass::Computer);
}

#[test]
fn exit_status_is_zero_only_on_success() {
    assert_eq!(exit_status(None), 0);
    assert_eq!(exit_status(Some(Failure::Usage)), 2);
    for failure in [
        Failure::NotFound,
        Failure::Corrupt,
        Failure::Io,
        Failure::Discovery,
        Failure::Network,
        Failure::AuthenticationFailed,
        Failure::InvalidIdentifier,
        Failure::Load,
        Failure::SessionDropped,
    ] {
        assert_eq!(exit_status(Some(failure)), 1);
    }
}

#[test]
fn failure_messages_name_the_stage() {
    assert_eq!(Failure::Usage.message(), "usage: expected `discover` or `play <media-identifier>`");
    assert_eq!(Failure::NotFound.message(), "credentials: not discovered yet, run `discover` first");
    assert_eq!(Failure::Corrupt.message(), "credentials: the persisted record is not valid");
    assert_eq!(Failure::Io.message(), "credentials: the store could not be read or written");
    assert_eq!(
        Failure::Discovery.message(),
        "discovery: the listener ended without a usable device"
    );
    assert_eq!(Failure::Network.message(), "session: the network failed");
    assert_eq!(Failure::AuthenticationFailed.message(), "session: the credentials were rejected");
    assert_eq!(Failure::InvalidIdentifier.message(), "playback: the media identifier is malformed");
    assert_eq!(Failure::Load.message(), "playback: the load request was rejected");
    assert_eq!(
        Failure::SessionDropped.message(),
        "playback: the session dropped before the end of the track"
    );
}

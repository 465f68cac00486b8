use down_on_spot::error::DownOnSpotError;
use down_on_spot::parse::{entity_kind, from_uri, resolve, uri_reference, web_reference, EntityKind};

fn ok(input: &str) -> (EntityKind, String) {
    match resolve(input) {
        Ok(found) => found,
        Err(e) => panic!("{} did not resolve: {}", input, e.message()),
    }
}

#[test]
fn canonical_track_reference_resolves() {
    assert_eq!(ok("spotify:track:ABC123"), (EntityKind::Track, "ABC123".to_string()));
}

#[test]
fn web_link_matches_canonical_reference() {
    assert_eq!(ok("https://open.spotify.com/track/ABC123"), ok("spotify:track:ABC123"));
    assert_eq!(ok("https://open.spotify.com/album/XYZ?si=abc"), ok("spotify:album:XYZ"));
    assert_eq!(ok("https://open.spotify.com/playlist/P1"), (EntityKind::Playlist, "P1".to_string()));
}

#[test]
fn web_link_domain_is_case_insensitive() {
    assert_eq!(ok("https://OPEN.SPOTIFY.COM/show/S9"), (EntityKind::Show, "S9".to_string()));
}

#[test]
fn web_link_takes_first_and_last_segment() {
    assert_eq!(
        ok("https://open.spotify.com/episode/extra/E7"),
        (EntityKind::Episode, "E7".to_string())
    );
}

#[test]
fn malformed_reference_is_invalid() {
    match resolve("not-a-url-or-uri") {
        Err(DownOnSpotError::Invalid(m)) => assert_eq!(m, "Invalid Spotify URL or ID"),
        _ => panic!("expected an invalid reference"),
    }
}

#[test]
fn foreign_domain_is_invalid() {
    assert!(matches!(resolve("https://example.com/track/ABC"), Err(DownOnSpotError::Invalid(_))));
}

#[test]
fn link_without_id_is_invalid() {
    assert!(matches!(resolve("https://open.spotify.com/track"), Err(DownOnSpotError::Invalid(_))));
}

#[test]
fn unknown_kind_is_unsupported() {
    assert!(matches!(resolve("spotify:artist:A1"), Err(DownOnSpotError::InvalidOrUnsupportedId)));
    assert!(matches!(from_uri("spotify:user:u"), Err(DownOnSpotError::InvalidOrUnsupportedId)));
}

#[test]
fn reference_without_id_is_invalid() {
    assert!(matches!(resolve("spotify:track"), Err(DownOnSpotError::Invalid(_))));
    assert!(matches!(resolve("track:ABC"), Err(DownOnSpotError::Invalid(_))));
}

#[test]
fn extra_tokens_are_ignored() {
    assert_eq!(ok("spotify:track:A:B"), (EntityKind::Track, "A".to_string()));
    assert_eq!(uri_reference("spotify:track:"), Some(("track".to_string(), String::new())));
}

#[test]
fn web_reference_checks_domain_and_segments() {
    let segs = Some(vec!["track".to_string(), "T1".to_string()]);
    assert_eq!(
        web_reference("open.spotify.com", &segs),
        Some(("track".to_string(), "T1".to_string()))
    );
    assert_eq!(web_reference("open.spotify.org", &segs), None);
    assert_eq!(web_reference("open.spotify.com", &Some(vec!["track".to_string()])), None);
    assert_eq!(web_reference("open.spotify.com", &None), None);
}

#[test]
fn kinds_are_recognised() {
    assert_eq!(entity_kind("track"), Some(EntityKind::Track));
    assert_eq!(entity_kind("album"), Some(EntityKind::Album));
    assert_eq!(entity_kind("playlist"), Some(EntityKind::Playlist));
    assert_eq!(entity_kind("show"), Some(EntityKind::Show));
    assert_eq!(entity_kind("episode"), Some(EntityKind::Episode));
    assert_eq!(entity_kind("Track"), None);
    assert_eq!(entity_kind(""), None);
}

#[test]
fn error_messages() {
    assert_eq!(DownOnSpotError::Unavailable.message(), "Unavailable");
    assert_eq!(DownOnSpotError::Invalid("x".to_string()).message(), "Invalid: x");
    assert_eq!(DownOnSpotError::DecoderError("d".to_string()).message(), "Decoder error: d");
    let io = DownOnSpotError::IoError(std::io::ErrorKind::NotFound, "gone".to_string());
    assert_eq!(io.message(), "IO error: NotFound - gone");
}

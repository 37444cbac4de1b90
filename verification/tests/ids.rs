use playlist_sync::endpoint::{try_extract_playlist_uri, PlaylistType};
use playlist_sync::error::ClientError;
use playlist_sync::ids::{PlaylistId, TrackId, UserId};

#[test]
fn it_parses_valid_playlist_uris_and_urls() {
    let expected = PlaylistId("EX3J5Phq9j7KcpkZJskhRP".to_string());
    let test = |id: &str| assert_eq!(PlaylistId::try_from_input(id).unwrap(), expected);

    test("EX3J5Phq9j7KcpkZJskhRP");
    test("spotify:playlist:EX3J5Phq9j7KcpkZJskhRP");
    test("https://open.spotify.com/playlist/EX3J5Phq9j7KcpkZJskhRP");
    test("https://open.spotify.com/playlist/EX3J5Phq9j7KcpkZJskhRP?some=other&query=params");
}

#[test]
fn it_fails_for_bad_playlist_ids() {
    let test = |id: &str| matches!(PlaylistId::try_from_input(id), Err(_));

    test("some bad id");
    test("EX3J5Phq9j7KcpkZJskhR"); // 21 characters
}

#[test]
fn it_fails_for_bad_ids() {
    assert!(matches!(try_extract_playlist_uri("some bad id"), Err(_)));
}

#[test]
fn it_parses_uris_and_urls() {
    let expected = "spotify:playlist:EX3J5Phq9j7KcpkZJskhRP".to_string();

    assert_eq!(
        try_extract_playlist_uri("spotify:playlist:EX3J5Phq9j7KcpkZJskhRP").unwrap(),
        expected
    );

    assert_eq!(
        try_extract_playlist_uri("https://open.spotify.com/playlist/EX3J5Phq9j7KcpkZJskhRP")
            .unwrap(),
        expected
    );

    assert_eq!(
        try_extract_playlist_uri(
            "https://open.spotify.com/playlist/EX3J5Phq9j7KcpkZJskhRP?some=other&query=params"
        )
        .unwrap(),
        expected
    );
}

#[test]
fn bad_playlist_input_reports_the_input() {
    match PlaylistId::try_from_input("not an id") {
        Err(ClientError::InvalidId(m)) => assert_eq!(m, "not an id"),
        other => panic!("expected InvalidId, got {:?}", other),
    }
}

#[test]
fn bare_id_must_be_exactly_22_characters() {
    // 23 identifier characters: the first 22 are taken.
    let r = PlaylistId::try_from_input("EX3J5Phq9j7KcpkZJskhRPx").unwrap();
    assert_eq!(r, PlaylistId("EX3J5Phq9j7KcpkZJskhRP".to_string()));
    // A bare run of 21 identifier characters fails.
    assert!(matches!(
        PlaylistId::try_from_input("EX3J5Phq9j7KcpkZJskhR"),
        Err(ClientError::InvalidId(_))
    ));
}

#[test]
fn extraction_scans_past_leading_text() {
    let r = try_extract_playlist_uri("see spotify:playlist:abc123 for details").unwrap();
    assert_eq!(r, "spotify:playlist:abc123");
}

#[test]
fn uri_forms() {
    assert_eq!(PlaylistId("p1".to_string()).uri(), "spotify:playlist:p1");
    assert_eq!(TrackId("t1".to_string()).uri(), "spotify:track:t1");
    assert_eq!(UserId("u1".to_string()).uri(), "spotify:user:u1");
}

#[test]
fn endpoint_values_round_trip() {
    assert_eq!(PlaylistType::Saved.to_value(), "_liked");
    let pt = PlaylistType::Id(PlaylistId("EX3J5Phq9j7KcpkZJskhRP".to_string()));
    assert_eq!(pt.to_value(), "spotify:playlist:EX3J5Phq9j7KcpkZJskhRP");

    assert_eq!(PlaylistType::try_from_value("_liked").unwrap(), PlaylistType::Saved);
    assert_eq!(PlaylistType::try_from_value(&pt.to_value()).unwrap(), pt);
    assert!(matches!(
        PlaylistType::try_from_value("garbage"),
        Err(ClientError::InvalidId(_))
    ));
}

#[test]
fn endpoint_display_names() {
    assert_eq!(PlaylistType::Saved.display_name(), "Liked Tracks");
    assert_eq!(
        PlaylistType::Id(PlaylistId("abc".to_string())).display_name(),
        "spotify:playlist:abc"
    );
}

use playlist_sync::config::{
    Config, DbConfig, LogConfig, LogLevel, SentryConfig, SpotifyConfig, SyncConfig, WebConfig,
};
use playlist_sync::endpoint::PlaylistType;
use playlist_sync::error::ClientError;
use playlist_sync::ids::{PlaylistId, SnapshotId, TrackId, UserId};
use playlist_sync::model::{
    filter_playlist_items, unwrap_saved_items, ExternalUrls, Image, Owner, PlaylistEntry,
    PlaylistPartial, SavedItem, TrackPartial, TrackType,
};
use playlist_sync::rules::{
    editable_from_update, owner_editable, probe_says_playlist_missing, validate_new_watcher,
};
use playlist_sync::schedule::{SyncInterval, Watcher};
use playlist_sync::view::{get_display_image, missing_playlist_ids, DashboardTemplate,
    DisplayPlaylist};

fn image(url: &str, width: Option<i32>) -> Image {
    Image { url: url.to_string(), width, height: width }
}

fn display(id: Option<&str>, name: &str) -> DisplayPlaylist {
    DisplayPlaylist {
        id: id.map(|s| PlaylistId(s.to_string())),
        name: name.to_string(),
        image_url: None,
        spotify_url: format!("https://open.example/{}", name),
    }
}

fn config() -> Config {
    Config {
        log: LogConfig { level: LogLevel::Info },
        sync: SyncConfig { enabled: true, check_interval_mins: 1 },
        database: DbConfig { url: "app.db".to_string() },
        web: WebConfig {
            host: "127.0.0.1".to_string(),
            port: 8080,
            public_url: "https://sync.example".to_string(),
            jwt_secret: "test-jwt-secret".to_string(),
        },
        spotify: SpotifyConfig {
            client_id: "client".to_string(),
            client_secret: "test-client-secret".to_string(),
        },
        sentry: SentryConfig { dsn: String::new() },
    }
}

fn watcher(from: PlaylistType, to: PlaylistType) -> Watcher {
    Watcher {
        id: 1,
        user_uri: "spotify:user:u1".to_string(),
        playlist_from: from,
        playlist_to: to,
        should_remove: false,
        sync_interval: SyncInterval::Hour,
        last_sync_at: None,
        next_sync_at: None,
        created_at: 0,
    }
}

fn pid(s: &str) -> PlaylistId {
    PlaylistId(s.to_string())
}

#[test]
fn no_images_no_display_image() {
    assert_eq!(get_display_image(&None), None);
    assert_eq!(get_display_image(&Some(vec![])), None);
}

#[test]
fn single_image_is_shown_whatever_its_width() {
    let r = get_display_image(&Some(vec![image("only", None)]));
    assert_eq!(r.as_deref(), Some("only"));
}

#[test]
fn smallest_sized_image_wins() {
    let r = get_display_image(&Some(vec![
        image("big", Some(640)),
        image("small", Some(64)),
        image("medium", Some(300)),
    ]));
    assert_eq!(r.as_deref(), Some("small"));
}

#[test]
fn unsized_images_are_ignored_among_several() {
    let r = get_display_image(&Some(vec![image("a", None), image("b", None)]));
    assert_eq!(r, None);
    let r2 = get_display_image(&Some(vec![image("a", None), image("b", Some(10))]));
    assert_eq!(r2.as_deref(), Some("b"));
}

#[test]
fn dashboard_maps_saved_and_identified_endpoints() {
    let t = DashboardTemplate {
        config: config(),
        name: "User".to_string(),
        watchers: vec![],
        all_playlists: vec![display(Some("p1"), "First"), display(Some("p2"), "Second")],
        user_playlists: vec![],
    };
    let saved = t.map_display_data(&PlaylistType::Saved).unwrap();
    assert!(matches!(saved.kind, PlaylistType::Saved));
    assert_eq!(saved.display.name, "Liked Tracks");
    assert_eq!(
        saved.display.spotify_url,
        "https://open.spotify.com/collection/tracks"
    );

    let hit = t.map_display_data(&PlaylistType::Id(pid("p2"))).unwrap();
    assert_eq!(hit.display.name, "Second");

    assert!(t.map_display_data(&PlaylistType::Id(pid("p9"))).is_none());

    let (a, b) = t.get_mapped_display_data(&watcher(
        PlaylistType::Saved,
        PlaylistType::Id(pid("p1")),
    ));
    assert_eq!(a.unwrap().display.name, "Liked Tracks");
    assert_eq!(b.unwrap().display.name, "First");
}

fn partial(id: &str) -> PlaylistPartial {
    PlaylistPartial {
        id: pid(id),
        name: id.to_string(),
        snapshot_id: SnapshotId("s".to_string()),
        images: None,
        owner: Owner { id: UserId("owner".to_string()) },
        external_urls: ExternalUrls { spotify: format!("https://open.example/{}", id) },
    }
}

#[test]
fn missing_ids_are_the_watcher_ids_the_user_lacks() {
    let watchers = vec![
        watcher(PlaylistType::Saved, PlaylistType::Id(pid("p1"))),
        watcher(PlaylistType::Id(pid("p2")), PlaylistType::Id(pid("p1"))),
    ];
    let user_playlists = vec![partial("p1")];
    let missing = missing_playlist_ids(&watchers, &user_playlists);
    assert_eq!(missing, vec![pid("p2")]);
}

#[test]
fn display_row_from_partial() {
    let mut p = partial("p5");
    p.images = Some(vec![image("one", None)]);
    let d = DisplayPlaylist::from_partial(p);
    assert_eq!(d.id, Some(pid("p5")));
    assert_eq!(d.name, "p5");
    assert_eq!(d.image_url.as_deref(), Some("one"));
    assert_eq!(d.spotify_url, "https://open.example/p5");
}

#[test]
fn playlist_listings_drop_local_and_empty_entries() {
    let items = vec![
        PlaylistEntry {
            is_local: false,
            track: Some(TrackPartial { id: TrackId("a".to_string()), kind: TrackType::Track }),
        },
        PlaylistEntry { is_local: true, track: Some(TrackPartial {
            id: TrackId("b".to_string()),
            kind: TrackType::Track,
        }) },
        PlaylistEntry { is_local: false, track: None },
    ];
    let tracks = filter_playlist_items(items);
    assert_eq!(tracks.len(), 1);
    assert_eq!(tracks[0].id, TrackId("a".to_string()));
}

#[test]
fn saved_listings_unwrap_their_items() {
    let items = vec![
        SavedItem { track: TrackPartial { id: TrackId("x".to_string()), kind: TrackType::Track } },
        SavedItem { track: TrackPartial {
            id: TrackId("y".to_string()),
            kind: TrackType::Episode,
        } },
    ];
    let tracks = unwrap_saved_items(items);
    assert_eq!(tracks.len(), 2);
    assert_eq!(tracks[0].id, TrackId("x".to_string()));
    assert_eq!(tracks[1].id, TrackId("y".to_string()));
}

#[test]
fn creation_rules_reject_self_transfer() {
    let r = validate_new_watcher(
        &PlaylistType::Id(pid("p1")),
        &PlaylistType::Id(pid("p1")),
        &vec![],
        false,
    );
    assert_eq!(
        r.unwrap_err(),
        "Cannot create watcher that transfers between the same playlist."
    );
}

#[test]
fn creation_rules_allow_one_sweeper_per_source() {
    let mut existing = watcher(PlaylistType::Id(pid("p1")), PlaylistType::Id(pid("p2")));
    existing.should_remove = true;
    let r = validate_new_watcher(
        &PlaylistType::Id(pid("p1")),
        &PlaylistType::Id(pid("p3")),
        &vec![existing],
        false,
    );
    assert_eq!(
        r.unwrap_err(),
        "A watcher with track removal enabled already exists for this playlist."
    );
}

#[test]
fn creation_rules_keep_sweepers_exclusive() {
    let existing = watcher(PlaylistType::Id(pid("p1")), PlaylistType::Id(pid("p2")));
    let r = validate_new_watcher(
        &PlaylistType::Id(pid("p1")),
        &PlaylistType::Id(pid("p3")),
        &vec![existing],
        true,
    );
    assert_eq!(
        r.unwrap_err(),
        "A watcher already exists for this playlist. Disable track removal or remove the other watcher."
    );
}

#[test]
fn creation_rules_accept_a_plain_second_watcher() {
    let existing = watcher(PlaylistType::Id(pid("p1")), PlaylistType::Id(pid("p2")));
    let r = validate_new_watcher(
        &PlaylistType::Id(pid("p1")),
        &PlaylistType::Id(pid("p3")),
        &vec![existing],
        false,
    );
    assert!(r.is_ok());
}

#[test]
fn editability_decisions() {
    assert!(owner_editable(&UserId("u".to_string()), &UserId("u".to_string())));
    assert!(!owner_editable(&UserId("u".to_string()), &UserId("v".to_string())));

    assert_eq!(editable_from_update(Ok(())).unwrap(), true);
    let forbidden = ClientError::ApiError { status: 403, message: "no".to_string() };
    assert_eq!(editable_from_update(Err(forbidden)).unwrap(), false);
    let other = ClientError::ApiError { status: 500, message: "boom".to_string() };
    assert!(editable_from_update(Err(other)).is_err());

    assert!(probe_says_playlist_missing(&ClientError::ApiError {
        status: 502,
        message: "bad gateway".to_string(),
    }));
    assert!(!probe_says_playlist_missing(&ClientError::TooManyRequests));
}

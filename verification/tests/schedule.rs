use playlist_sync::endpoint::PlaylistType;
use playlist_sync::error::{SyncError, u16_to_string};
use playlist_sync::ids::PlaylistId;
use playlist_sync::schedule::{
    conclude_batch, conclude_run, next_check_at, select_due, SyncInterval, Watcher,
};

fn watcher_with(id: u32, next_sync_at: Option<i64>) -> Watcher {
    Watcher {
        id,
        user_uri: "spotify:user:u1".to_string(),
        playlist_from: PlaylistType::Saved,
        playlist_to: PlaylistType::Id(PlaylistId("p1".to_string())),
        should_remove: false,
        sync_interval: SyncInterval::Hour,
        last_sync_at: None,
        next_sync_at,
        created_at: 0,
    }
}

#[test]
fn interval_lengths() {
    assert_eq!(SyncInterval::Hour.seconds(), 3_600);
    assert_eq!(SyncInterval::Day.seconds(), 86_400);
    assert_eq!(SyncInterval::Week.seconds(), 604_800);
}

#[test]
fn interval_values_round_trip() {
    for iv in [SyncInterval::Hour, SyncInterval::Day, SyncInterval::Week] {
        assert_eq!(SyncInterval::try_from_value(&iv.to_value()).unwrap(), iv);
    }
    match SyncInterval::try_from_value("fortnight") {
        Err(SyncError::StorageError(m)) => {
            assert_eq!(m, "invalid sync interval: fortnight")
        }
        other => panic!("expected StorageError, got {:?}", other),
    }
}

#[test]
fn due_when_unset_or_past() {
    let now = 10_000;
    assert!(watcher_with(1, None).is_due(now));
    assert!(watcher_with(1, Some(9_999)).is_due(now));
    assert!(watcher_with(1, Some(10_000)).is_due(now));
    assert!(!watcher_with(1, Some(10_001)).is_due(now));
}

#[test]
fn select_due_filters_in_order() {
    let ws = vec![
        watcher_with(1, Some(5)),
        watcher_with(2, Some(50_000)),
        watcher_with(3, None),
    ];
    let due = select_due(&ws, 10_000);
    let due_ids: Vec<u32> = due.iter().map(|w| w.id).collect();
    assert_eq!(due_ids, vec![1, 3]);
}

#[test]
fn next_check_rounds_to_the_minute() {
    assert_eq!(next_check_at(125, 1), 180);
    assert_eq!(next_check_at(120, 1), 180);
    assert_eq!(next_check_at(59, 10), 600);
}

#[test]
fn successful_run_with_work_is_recorded() {
    let w = watcher_with(7, None);
    let c = conclude_run(&w, &Ok(5), 1_000);
    assert_eq!(c.last_sync_at, 1_000);
    assert_eq!(c.next_sync_at, 1_000 + 3_600);
    let o = c.outcome.unwrap();
    assert_eq!(o.watcher_id, 7);
    assert_eq!(o.num_tracks_transferred, 5);
    assert!(o.error.is_none());
    assert_eq!(o.synced_at, 1_000);
}

#[test]
fn no_op_run_leaves_no_record_but_still_reschedules() {
    let w = watcher_with(7, None);
    let c = conclude_run(&w, &Ok(0), 1_000);
    assert!(c.outcome.is_none());
    assert_eq!(c.next_sync_at, 4_600);
    assert_eq!(c.last_sync_at, 1_000);
}

#[test]
fn failed_run_is_recorded_with_its_message() {
    let w = watcher_with(9, None);
    let err = SyncError::RemoteApiError { status: 404, message: "gone".to_string() };
    let c = conclude_run(&w, &Err(err), 2_000);
    assert_eq!(c.next_sync_at, 2_000 + 3_600);
    let o = c.outcome.unwrap();
    assert_eq!(o.num_tracks_transferred, 0);
    assert_eq!(o.error.as_deref(), Some("spotify 404 error: gone"));
}

#[test]
fn per_watcher_isolation() {
    // W1 fails with a remote rejection, W2 succeeds in the same tick: the
    // tick completes, W1 is still rescheduled, W2's outcome is recorded.
    let w1 = watcher_with(1, None);
    let w2 = watcher_with(2, None);
    let results = vec![
        Err(SyncError::RemoteApiError { status: 500, message: "boom".to_string() }),
        Ok(3),
    ];
    let conclusions = conclude_batch(&vec![w1, w2], &results, 5_000);
    assert_eq!(conclusions.len(), 2);
    assert_eq!(conclusions[0].next_sync_at, 5_000 + 3_600);
    assert_eq!(conclusions[1].next_sync_at, 5_000 + 3_600);
    let o1 = conclusions[0].outcome.as_ref().unwrap();
    assert_eq!(o1.error.as_deref(), Some("spotify 500 error: boom"));
    let o2 = conclusions[1].outcome.as_ref().unwrap();
    assert_eq!(o2.num_tracks_transferred, 3);
    assert!(o2.error.is_none());
}

#[test]
fn watcher_rows_decode() {
    let w = Watcher::try_from_row_data(
        4,
        "spotify:user:u1".to_string(),
        "_liked",
        "spotify:playlist:abc",
        true,
        "day",
        Some(100),
        Some(200),
        50,
    )
    .unwrap();
    assert_eq!(w.id, 4);
    assert_eq!(w.playlist_from, PlaylistType::Saved);
    assert_eq!(w.playlist_to, PlaylistType::Id(PlaylistId("abc".to_string())));
    assert!(w.should_remove);
    assert_eq!(w.sync_interval, SyncInterval::Day);
    assert_eq!(w.last_sync_at, Some(100));
    assert_eq!(w.next_sync_at, Some(200));
    assert_eq!(w.created_at, 50);

    assert!(Watcher::try_from_row_data(
        4,
        "u".to_string(),
        "nonsense",
        "_liked",
        false,
        "day",
        None,
        None,
        0,
    )
    .is_err());
}

#[test]
fn error_messages() {
    assert_eq!(
        SyncError::InvalidTransfer("x".to_string()).message(),
        "invalid transfer: x"
    );
    assert_eq!(
        SyncError::CredentialError("no token".to_string()).message(),
        "credential error: no token"
    );
    assert_eq!(SyncError::RateLimited.message(), "too many requests");
    assert_eq!(
        SyncError::StorageError("disk".to_string()).message(),
        "storage error: disk"
    );
    assert_eq!(
        SyncError::RemoteApiError { status: 429, message: "slow down".to_string() }.message(),
        "spotify 429 error: slow down"
    );
}

#[test]
fn decimal_rendering() {
    assert_eq!(u16_to_string(0), "0");
    assert_eq!(u16_to_string(7), "7");
    assert_eq!(u16_to_string(10), "10");
    assert_eq!(u16_to_string(404), "404");
    assert_eq!(u16_to_string(65535), "65535");
}

#[test]
fn user_facing_responses() {
    let api = SyncError::RemoteApiError { status: 403, message: "denied".to_string() };
    assert_eq!(api.user_facing_response(), (403, "denied".to_string()));
    let weird = SyncError::RemoteApiError { status: 0, message: "hidden".to_string() };
    assert_eq!(weird.user_facing_response(), (500, "internal server error".to_string()));
    assert_eq!(
        SyncError::RateLimited.user_facing_response(),
        (429, "too many requests".to_string())
    );
    assert_eq!(
        SyncError::CredentialError("x".to_string()).user_facing_response(),
        (500, "internal server error".to_string())
    );
}

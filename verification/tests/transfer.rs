use playlist_sync::batch::BatchLimits;
use playlist_sync::endpoint::PlaylistType;
use playlist_sync::error::SyncError;
use playlist_sync::ids::{PlaylistId, SnapshotId, TrackId};
use playlist_sync::model::{TrackPartial, TrackType};
use playlist_sync::schedule::{conclude_run, SyncInterval, Watcher};
use playlist_sync::transfer::{ApiRequest, TransferMachine};

fn track(id: &str) -> TrackPartial {
    TrackPartial { id: TrackId(id.to_string()), kind: TrackType::Track }
}

fn episode(id: &str) -> TrackPartial {
    TrackPartial { id: TrackId(id.to_string()), kind: TrackType::Episode }
}

fn limits() -> BatchLimits {
    BatchLimits { insert_chunk_size: 100, remove_chunk_size: 50 }
}

fn target() -> PlaylistType {
    PlaylistType::Id(PlaylistId("target0000000000000000".to_string()))
}

fn ids(names: &[&str]) -> Vec<TrackId> {
    names.iter().map(|n| TrackId(n.to_string())).collect()
}

/// Drive a machine over the given collections, simulating a remote whose
/// target accumulates inserted chunks; returns the inserted count, the
/// insert chunks issued, the removal chunks issued, and the final target
/// membership.
fn drive(
    source: Vec<TrackPartial>,
    target_tracks: Vec<TrackPartial>,
    remove: bool,
) -> (u32, Vec<Vec<TrackId>>, Vec<Vec<TrackId>>, Vec<TrackPartial>) {
    let mut m =
        TransferMachine::new(PlaylistType::Saved, target(), remove, limits()).unwrap();
    let mut inserts: Vec<Vec<TrackId>> = Vec::new();
    let mut removals: Vec<Vec<TrackId>> = Vec::new();
    let mut remote_target = target_tracks;
    let mut reads = 0;
    loop {
        match m.pending_request() {
            None => break,
            Some(ApiRequest::ReadSourceTracks(_)) => {
                reads += 1;
                assert!(reads < 100, "machine must not loop on reads");
                m.provide_source_tracks(&source);
            }
            Some(ApiRequest::ReadTargetTracks(_)) => {
                reads += 1;
                assert!(reads < 100, "machine must not loop on reads");
                let snapshot = remote_target.clone();
                m.provide_target_tracks(&snapshot);
            }
            Some(ApiRequest::InsertChunk(_, chunk)) => {
                for t in &chunk {
                    remote_target.push(TrackPartial {
                        id: t.clone(),
                        kind: TrackType::Track,
                    });
                }
                inserts.push(chunk);
                m.chunk_inserted(SnapshotId(format!("snap{}", inserts.len())));
            }
            Some(ApiRequest::RemoveChunk(_, chunk)) => {
                removals.push(chunk);
                m.chunk_removed();
            }
        }
    }
    (m.outcome().unwrap(), inserts, removals, remote_target)
}

#[test]
fn guard_rejects_same_endpoint() {
    let r = TransferMachine::new(target(), target(), false, limits());
    match r {
        Err(SyncError::InvalidTransfer(m)) => {
            assert_eq!(m, "cannot transfer to the same playlist")
        }
        other => panic!("expected InvalidTransfer, got {:?}", other),
    }
    let r2 = TransferMachine::new(PlaylistType::Saved, PlaylistType::Saved, true, limits());
    assert!(matches!(r2, Err(SyncError::InvalidTransfer(_))));
}

#[test]
fn guard_rejects_saved_as_target() {
    let r = TransferMachine::new(target(), PlaylistType::Saved, false, limits());
    match r {
        Err(SyncError::InvalidTransfer(m)) => {
            assert_eq!(m, "cannot transfer to saved tracks")
        }
        other => panic!("expected InvalidTransfer, got {:?}", other),
    }
}

#[test]
fn empty_source_is_a_no_op() {
    let (count, inserts, removals, _) = drive(vec![], vec![track("x")], true);
    assert_eq!(count, 0);
    assert!(inserts.is_empty());
    assert!(removals.is_empty());
    // An empty source issues no target read either: the only read was the
    // source read, checked here by driving a fresh machine by hand.
    let mut m =
        TransferMachine::new(PlaylistType::Saved, target(), false, limits()).unwrap();
    assert!(matches!(
        m.pending_request(),
        Some(ApiRequest::ReadSourceTracks(_))
    ));
    m.provide_source_tracks(&vec![]);
    assert!(m.pending_request().is_none());
    assert_eq!(m.outcome(), Some(0));
    // A run that found nothing to do leaves no outcome record.
    let w = watcher(false);
    let c = conclude_run(&w, &Ok(0), 1_000);
    assert!(c.outcome.is_none());
}

#[test]
fn only_tracks_participate() {
    let (count, inserts, _, _) =
        drive(vec![episode("e1"), track("a"), episode("e2")], vec![], false);
    assert_eq!(count, 1);
    assert_eq!(inserts, vec![ids(&["a"])]);
}

#[test]
fn duplicate_source_entries_count_once() {
    let (count, inserts, _, _) =
        drive(vec![track("a"), track("b"), track("a")], vec![], false);
    assert_eq!(count, 2);
    assert_eq!(inserts, vec![ids(&["b", "a"])]);
}

#[test]
fn diff_inserts_exactly_the_missing_tracks() {
    // Source read newest-first: c, b, a; target already has b.
    let (count, inserts, _, final_target) =
        drive(vec![track("c"), track("b"), track("a")], vec![track("b")], false);
    assert_eq!(count, 2);
    assert_eq!(inserts, vec![ids(&["a", "c"])]);
    // Recomputing the target set yields the union of source and target.
    let final_ids: Vec<String> = final_target.iter().map(|t| t.id.0.clone()).collect();
    for wanted in ["a", "b", "c"] {
        assert!(final_ids.iter().any(|x| x == wanted));
    }
    assert_eq!(final_ids.len(), 3);
}

#[test]
fn insertion_order_is_reversed() {
    // Newest-first source [c, b, a], none in target: written oldest-first.
    let (_, inserts, _, _) = drive(vec![track("c"), track("b"), track("a")], vec![], false);
    assert_eq!(inserts, vec![ids(&["a", "b", "c"])]);
}

#[test]
fn transfer_is_idempotent() {
    let source = vec![track("c"), track("b"), track("a")];
    let (count1, _, _, target_after) = drive(source.clone(), vec![track("b")], false);
    assert_eq!(count1, 2);
    // Second run over the unchanged source and the grown target.
    let (count2, inserts2, _, _) = drive(source, target_after, false);
    assert_eq!(count2, 0);
    assert!(inserts2.is_empty());
}

#[test]
fn batches_are_chunked() {
    // 250 missing tracks cost exactly three insert requests: 100, 100, 50.
    let source: Vec<TrackPartial> =
        (0..250).map(|i| track(&format!("t{:03}", i))).collect();
    let (count, inserts, _, final_target) = drive(source.clone(), vec![], false);
    assert_eq!(count, 250);
    assert_eq!(inserts.len(), 3);
    assert_eq!(inserts[0].len(), 100);
    assert_eq!(inserts[1].len(), 100);
    assert_eq!(inserts[2].len(), 50);
    // Every source track is reflected in the resulting target set.
    assert_eq!(final_target.len(), 250);
    for t in &source {
        assert!(final_target.iter().any(|x| x.id == t.id));
    }
}

#[test]
fn removal_sweeps_the_entire_pre_run_source() {
    // 120 source tracks, one of which already sits in the target and is not
    // re-inserted; the sweep still removes all 120, in chunks of 50.
    let source: Vec<TrackPartial> =
        (0..120).map(|i| track(&format!("s{:03}", i))).collect();
    let (count, inserts, removals, _) =
        drive(source.clone(), vec![track("s000")], true);
    assert_eq!(count, 119);
    assert_eq!(inserts.iter().map(|c| c.len()).sum::<usize>(), 119);
    assert_eq!(removals.len(), 3);
    assert_eq!(removals[0].len(), 50);
    assert_eq!(removals[1].len(), 50);
    assert_eq!(removals[2].len(), 20);
    let removed: Vec<TrackId> = removals.into_iter().flatten().collect();
    assert_eq!(removed.len(), 120);
    for t in &source {
        assert!(removed.iter().any(|x| *x == t.id));
    }
}

#[test]
fn removal_happens_even_when_nothing_is_inserted() {
    let source = vec![track("a")];
    let (count, inserts, removals, _) = drive(source, vec![track("a")], true);
    assert_eq!(count, 0);
    assert!(inserts.is_empty());
    assert_eq!(removals, vec![ids(&["a"])]);
}

#[test]
fn snapshots_are_collected_per_chunk() {
    let source: Vec<TrackPartial> =
        (0..150).map(|i| track(&format!("t{:03}", i))).collect();
    let mut m =
        TransferMachine::new(PlaylistType::Saved, target(), false, limits()).unwrap();
    m.provide_source_tracks(&source);
    m.provide_target_tracks(&vec![]);
    let mut n = 0;
    while let Some(ApiRequest::InsertChunk(_, _)) = m.pending_request() {
        n += 1;
        m.chunk_inserted(SnapshotId(format!("snap{}", n)));
    }
    assert_eq!(n, 2);
    assert_eq!(m.snapshots.len(), 2);
    assert_eq!(m.snapshots[0], SnapshotId("snap1".to_string()));
    assert_eq!(m.snapshots[1], SnapshotId("snap2".to_string()));
}

fn watcher(should_remove: bool) -> Watcher {
    Watcher {
        id: 1,
        user_uri: "spotify:user:u1".to_string(),
        playlist_from: PlaylistType::Saved,
        playlist_to: target(),
        should_remove,
        sync_interval: SyncInterval::Hour,
        last_sync_at: None,
        next_sync_at: None,
        created_at: 0,
    }
}

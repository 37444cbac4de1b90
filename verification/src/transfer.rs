//! The transfer machine: one run of the set-diff transfer algorithm, with the
//! remote calls turned into explicit requests.
//!
//! The machine carries the whole decision logic of a run — guards, the diff,
//! ordering, chunked writes and the removal sweep — while the caller performs
//! each pending request and hands the answer back. A run proceeds source read
//! → target read → chunked inserts → optional chunked removal sweep, and no
//! step is reorderable: the diff depends on both reads and the sweep removes
//! the pre-run source set, not what was inserted.

use vstd::prelude::*;

use crate::batch::{first_chunk, min_usize, rest_after_chunk, slice_ids, BatchLimits};
use crate::diff::{
    collect_track_ids, collected_track_ids, id_views, ids_to_insert, lemma_collected_track_ids_len,
    lemma_seq_diff_len, seq_diff,
};
use crate::endpoint::{same_endpoint, PlaylistType};
use crate::error::SyncError;
use crate::ids::{PlaylistId, SnapshotId, TrackId};
use crate::model::TrackPartial;

verus! {

/// Where a transfer run stands.
#[derive(Debug, Clone, Copy, PartialEq, Eq, Structural)]
pub enum TransferPhase {
    /// Waiting for the source collection to be read.
    FetchSource,
    /// Waiting for the target collection to be read.
    FetchTarget,
    /// Writing the missing tracks to the target, chunk by chunk.
    Insert,
    /// Sweeping the pre-run source set out of the source, chunk by chunk.
    Remove,
    /// The run is over.
    Done,
}

/// One remote call the machine asks its driver to perform.
#[derive(Debug)]
pub enum ApiRequest {
    /// Read the full track listing of the source endpoint.
    ReadSourceTracks(PlaylistType),
    /// Read the full track listing of the target playlist.
    ReadTargetTracks(PlaylistId),
    /// Add these tracks, in this order, to the target playlist.
    InsertChunk(PlaylistId, Vec<TrackId>),
    /// Delete these tracks from the source endpoint.
    RemoveChunk(PlaylistType, Vec<TrackId>),
}

/// One run of the set-diff transfer algorithm.
#[derive(Debug)]
pub struct TransferMachine {
    /// Endpoint tracks are read from, and swept from when removal is on.
    pub source: PlaylistType,
    /// Playlist tracks are written to; the guards bar the saved collection.
    pub target: PlaylistId,
    /// Whether a successful run sweeps the pre-run source set from the source.
    pub remove_from_source: bool,
    /// Chunk caps for the write requests.
    pub limits: BatchLimits,
    /// Where the run stands.
    pub phase: TransferPhase,
    /// The pre-run source set: distinct track identifiers, newest first.
    pub source_ids: Vec<TrackId>,
    /// What the run inserts: the source set minus the target set, oldest
    /// first.
    pub to_insert: Vec<TrackId>,
    /// What is still to be inserted.
    pub insert_queue: Vec<TrackId>,
    /// What is still to be swept from the source.
    pub remove_queue: Vec<TrackId>,
    /// One snapshot identifier per insert chunk written.
    pub snapshots: Vec<SnapshotId>,
    /// How many tracks the run inserts.
    pub inserted: u32,
}

impl TransferMachine {
    /// What every reachable machine state satisfies.
    pub open spec fn inv(&self) -> bool {
        &&& self.limits.insert_chunk_size >= 1
        &&& self.limits.remove_chunk_size >= 1
        &&& !same_endpoint(self.source, PlaylistType::Id(self.target))
        &&& self.source_ids@.len() <= u32::MAX
        &&& self.to_insert@.len() <= u32::MAX
        &&& match self.phase {
            TransferPhase::FetchSource => self.source_ids@.len() == 0 && self.to_insert@.len()
                == 0 && self.insert_queue@.len() == 0 && self.remove_queue@.len() == 0
                && self.snapshots@.len() == 0 && self.inserted == 0,
            TransferPhase::FetchTarget => self.source_ids@.len() > 0 && self.to_insert@.len() == 0
                && self.insert_queue@.len() == 0 && self.remove_queue@.len() == 0
                && self.snapshots@.len() == 0 && self.inserted == 0,
            TransferPhase::Insert => self.inserted == self.to_insert@.len()
                && self.insert_queue@.len() > 0 && self.remove_queue@.len() == 0
                && self.source_ids@.len() > 0,
            TransferPhase::Remove => self.remove_from_source && self.inserted
                == self.to_insert@.len() && self.remove_queue@.len() > 0
                && self.insert_queue@.len() == 0 && self.source_ids@.len() > 0,
            TransferPhase::Done => self.insert_queue@.len() == 0 && self.remove_queue@.len() == 0,
        }
    }

    /// Begin a run, or reject it: a transfer from an endpoint to itself and a
    /// transfer into the saved collection are invalid, and are refused before
    /// any request is issued.
    pub fn new(
        source: PlaylistType,
        target: PlaylistType,
        remove_from_source: bool,
        limits: BatchLimits,
    ) -> (r: Result<TransferMachine, SyncError>)
        requires
            limits.insert_chunk_size >= 1,
            limits.remove_chunk_size >= 1,
        ensures
            match r {
                Ok(m) => {
                    &&& !same_endpoint(source, target)
                    &&& !(target is Saved)
                    &&& m.inv()
                    &&& m.phase == TransferPhase::FetchSource
                    &&& m.source == source
                    &&& (target matches PlaylistType::Id(pid) && m.target == pid)
                    &&& m.remove_from_source == remove_from_source
                    &&& m.limits == limits
                },
                Err(e) => {
                    &&& same_endpoint(source, target) || target is Saved
                    &&& (e matches SyncError::InvalidTransfer(m) && (if same_endpoint(
                        source,
                        target,
                    ) {
                        m@ == "cannot transfer to the same playlist"@
                    } else {
                        m@ == "cannot transfer to saved tracks"@
                    }))
                },
            },
    {
        if source == target {
            return Err(SyncError::InvalidTransfer(
                String::from_str("cannot transfer to the same playlist"),
            ));
        }
        match target {
            PlaylistType::Saved => Err(SyncError::InvalidTransfer(
                String::from_str("cannot transfer to saved tracks"),
            )),
            PlaylistType::Id(pid) => Ok(TransferMachine {
                source,
                target: pid,
                remove_from_source,
                limits,
                phase: TransferPhase::FetchSource,
                source_ids: Vec::new(),
                to_insert: Vec::new(),
                insert_queue: Vec::new(),
                remove_queue: Vec::new(),
                snapshots: Vec::new(),
                inserted: 0,
            }),
        }
    }

    /// The remote call the run is waiting on, if any: exactly one while the
    /// run is under way, none once it is done.
    pub fn pending_request(&self) -> (r: Option<ApiRequest>)
        requires
            self.inv(),
        ensures
            match self.phase {
                TransferPhase::FetchSource => r matches Some(ApiRequest::ReadSourceTracks(src))
                    && src == self.source,
                TransferPhase::FetchTarget => r matches Some(ApiRequest::ReadTargetTracks(t))
                    && t == self.target,
                TransferPhase::Insert => r matches Some(ApiRequest::InsertChunk(t, chunk)) && t
                    == self.target && chunk@ == first_chunk(
                    self.insert_queue@,
                    self.limits.insert_chunk_size as int,
                ),
                TransferPhase::Remove => r matches Some(ApiRequest::RemoveChunk(src, chunk))
                    && src == self.source && chunk@ == first_chunk(
                    self.remove_queue@,
                    self.limits.remove_chunk_size as int,
                ),
                TransferPhase::Done => r is None,
            },
    {
        match self.phase {
            TransferPhase::FetchSource => Some(ApiRequest::ReadSourceTracks(self.source.clone())),
            TransferPhase::FetchTarget => Some(ApiRequest::ReadTargetTracks(self.target.clone())),
            TransferPhase::Insert => {
                let k = min_usize(self.limits.insert_chunk_size, self.insert_queue.len());
                let chunk = slice_ids(&self.insert_queue, 0, k);
                proof {
                    assert(chunk@ =~= first_chunk(
                        self.insert_queue@,
                        self.limits.insert_chunk_size as int,
                    ));
                }
                Some(ApiRequest::InsertChunk(self.target.clone(), chunk))
            },
            TransferPhase::Remove => {
                let k = min_usize(self.limits.remove_chunk_size, self.remove_queue.len());
                let chunk = slice_ids(&self.remove_queue, 0, k);
                proof {
                    assert(chunk@ =~= first_chunk(
                        self.remove_queue@,
                        self.limits.remove_chunk_size as int,
                    ));
                }
                Some(ApiRequest::RemoveChunk(self.source.clone(), chunk))
            },
            TransferPhase::Done => None,
        }
    }

    /// Hand the machine the source listing. The distinct track identifiers
    /// are kept in reading order; an empty source ends the run at once with
    /// zero inserted and no further requests.
    pub fn provide_source_tracks(&mut self, tracks: &Vec<TrackPartial>)
        requires
            old(self).inv(),
            old(self).phase == TransferPhase::FetchSource,
            tracks@.len() <= u32::MAX,
        ensures
            final(self).inv(),
            id_views(final(self).source_ids@) == collected_track_ids(tracks@),
            collected_track_ids(tracks@).len() == 0 ==> final(self).phase == TransferPhase::Done,
            collected_track_ids(tracks@).len() > 0 ==> final(self).phase
                == TransferPhase::FetchTarget,
            final(self).inserted == 0,
            final(self).source == old(self).source,
            final(self).target == old(self).target,
            final(self).remove_from_source == old(self).remove_from_source,
            final(self).limits == old(self).limits,
            final(self).snapshots@ == old(self).snapshots@,
    {
        proof {
            lemma_collected_track_ids_len(tracks@);
        }
        let ids = collect_track_ids(tracks);
        if ids.len() == 0 {
            self.phase = TransferPhase::Done;
        } else {
            self.source_ids = ids;
            self.phase = TransferPhase::FetchTarget;
        }
    }

    /// Hand the machine the target listing. What the target misses is queued
    /// for insertion in reverse reading order, so that a source read newest
    /// first is written oldest first; with nothing to insert the run either
    /// moves straight to the removal sweep or ends.
    pub fn provide_target_tracks(&mut self, tracks: &Vec<TrackPartial>)
        requires
            old(self).inv(),
            old(self).phase == TransferPhase::FetchTarget,
        ensures
            final(self).inv(),
            ({
                let d = seq_diff(
                    id_views(old(self).source_ids@),
                    collected_track_ids(tracks@),
                );
                &&& id_views(final(self).to_insert@) == d.reverse()
                &&& final(self).inserted == d.len()
                &&& (d.len() > 0 ==> final(self).phase == TransferPhase::Insert && final(self).insert_queue@ == final(self).to_insert@)
                &&& (d.len() == 0 && old(self).remove_from_source ==> final(self).phase
                    == TransferPhase::Remove && final(self).remove_queue@ == final(self).source_ids@)
                &&& (d.len() == 0 && !old(self).remove_from_source ==> final(self).phase
                    == TransferPhase::Done)
            }),
            final(self).source_ids@ == old(self).source_ids@,
            final(self).source == old(self).source,
            final(self).target == old(self).target,
            final(self).remove_from_source == old(self).remove_from_source,
            final(self).limits == old(self).limits,
            final(self).snapshots@ == old(self).snapshots@,
    {
        let target_ids = collect_track_ids(tracks);
        let ti = ids_to_insert(&self.source_ids, &target_ids);
        proof {
            let src = id_views(self.source_ids@);
            let tgt = id_views(target_ids@);
            lemma_seq_diff_len(src, tgt);
            assert(src.len() == self.source_ids@.len());
            assert(id_views(ti@) == seq_diff(src, tgt).reverse());
            assert(seq_diff(src, tgt).reverse().len() == seq_diff(src, tgt).len());
            assert(ti@.len() == id_views(ti@).len());
        }
        self.inserted = ti.len() as u32;
        if ti.len() > 0 {
            self.insert_queue = clone_ids(&ti);
            self.to_insert = ti;
            self.phase = TransferPhase::Insert;
        } else if self.remove_from_source {
            self.remove_queue = clone_ids(&self.source_ids);
            self.phase = TransferPhase::Remove;
        } else {
            self.phase = TransferPhase::Done;
        }
    }

    /// Record that the pending insert chunk was written and the remote
    /// answered with this snapshot identifier. When the last chunk is in, the
    /// run moves to the removal sweep or ends.
    pub fn chunk_inserted(&mut self, snapshot: SnapshotId)
        requires
            old(self).inv(),
            old(self).phase == TransferPhase::Insert,
        ensures
            final(self).inv(),
            final(self).snapshots@ == old(self).snapshots@.push(snapshot),
            final(self).insert_queue@ == rest_after_chunk(
                old(self).insert_queue@,
                old(self).limits.insert_chunk_size as int,
            ),
            final(self).insert_queue@.len() > 0 ==> final(self).phase == TransferPhase::Insert,
            final(self).insert_queue@.len() == 0 && old(self).remove_from_source ==> final(self).phase
                == TransferPhase::Remove && final(self).remove_queue@ == final(self).source_ids@,
            final(self).insert_queue@.len() == 0 && !old(self).remove_from_source ==> final(self).phase
                == TransferPhase::Done,
            final(self).source_ids@ == old(self).source_ids@,
            final(self).to_insert@ == old(self).to_insert@,
            final(self).inserted == old(self).inserted,
            final(self).source == old(self).source,
            final(self).target == old(self).target,
            final(self).remove_from_source == old(self).remove_from_source,
            final(self).limits == old(self).limits,
    {
        let k = min_usize(self.limits.insert_chunk_size, self.insert_queue.len());
        let rest = skip_ids(&self.insert_queue, k);
        proof {
            assert(rest@ =~= rest_after_chunk(
                self.insert_queue@,
                self.limits.insert_chunk_size as int,
            ));
        }
        self.insert_queue = rest;
        self.snapshots.push(snapshot);
        if self.insert_queue.len() == 0 {
            if self.remove_from_source {
                self.remove_queue = clone_ids(&self.source_ids);
                self.phase = TransferPhase::Remove;
            } else {
                self.phase = TransferPhase::Done;
            }
        }
    }

    /// Record that the pending removal chunk was deleted from the source.
    /// When the last chunk is out, the run ends.
    pub fn chunk_removed(&mut self)
        requires
            old(self).inv(),
            old(self).phase == TransferPhase::Remove,
        ensures
            final(self).inv(),
            final(self).remove_queue@ == rest_after_chunk(
                old(self).remove_queue@,
                old(self).limits.remove_chunk_size as int,
            ),
            final(self).remove_queue@.len() > 0 ==> final(self).phase == TransferPhase::Remove,
            final(self).remove_queue@.len() == 0 ==> final(self).phase == TransferPhase::Done,
            final(self).source_ids@ == old(self).source_ids@,
            final(self).to_insert@ == old(self).to_insert@,
            final(self).inserted == old(self).inserted,
            final(self).snapshots@ == old(self).snapshots@,
            final(self).source == old(self).source,
            final(self).target == old(self).target,
            final(self).remove_from_source == old(self).remove_from_source,
            final(self).limits == old(self).limits,
    {
        let k = min_usize(self.limits.remove_chunk_size, self.remove_queue.len());
        let rest = skip_ids(&self.remove_queue, k);
        proof {
            assert(rest@ =~= rest_after_chunk(
                self.remove_queue@,
                self.limits.remove_chunk_size as int,
            ));
        }
        self.remove_queue = rest;
        if self.remove_queue.len() == 0 {
            self.phase = TransferPhase::Done;
        }
    }

    /// The run's result: how many tracks were inserted, once it is done.
    pub fn outcome(&self) -> (r: Option<u32>)
        requires
            self.inv(),
        ensures
            match r {
                Some(n) => self.phase == TransferPhase::Done && n == self.inserted,
                None => self.phase != TransferPhase::Done,
            },
    {
        if self.phase == TransferPhase::Done {
            Some(self.inserted)
        } else {
            None
        }
    }
}

/// A copy of a run of identifiers.
pub fn clone_ids(v: &Vec<TrackId>) -> (r: Vec<TrackId>)
    ensures
        r@ == v@,
{
    let n: usize = v.len();
    let mut out: Vec<TrackId> = Vec::new();
    let mut i: usize = 0;
    while i < n
        invariant
            0 <= i <= n,
            n == v@.len(),
            out@ =~= v@.take(i as int),
        decreases n - i,
    {
        out.push(v[i].clone());
        i = i + 1;
        proof {
            assert(out@ =~= v@.take(i as int));
        }
    }
    proof {
        assert(v@.take(n as int) =~= v@);
    }
    out
}

/// What follows the first `k` elements of a run of identifiers.
pub fn skip_ids(v: &Vec<TrackId>, k: usize) -> (r: Vec<TrackId>)
    requires
        k <= v@.len(),
    ensures
        r@ == v@.skip(k as int),
{
    let n: usize = v.len();
    let mut out: Vec<TrackId> = Vec::new();
    let mut i: usize = k;
    while i < n
        invariant
            k <= i <= n,
            n == v@.len(),
            out@.len() == i - k,
            forall|j: int| 0 <= j < i - k ==> out@[j] == v@[k + j],
        decreases n - i,
    {
        out.push(v[i].clone());
        i = i + 1;
    }
    proof {
        assert(out@ =~= v@.skip(k as int));
    }
    out
}

} // verus!

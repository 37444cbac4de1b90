//! The scheduler's decisions: which watchers are due on a tick, when the
//! next tick falls, and how one watcher's run is concluded — bookkeeping
//! advanced whether the run succeeded or failed, an outcome record exactly
//! when there is something to record, and one watcher's failure never
//! touching another's conclusion.

use vstd::prelude::*;

use crate::endpoint::PlaylistType;
use crate::error::{dec_str, SyncError};

verus! {

/// How often a watcher is eligible to run; eligibility only, not the
/// scheduler's own tick cadence.
#[derive(Debug, Clone, Copy, PartialEq, Eq, Structural, Default)]
pub enum SyncInterval {
    #[default]
    Hour,
    Day,
    Week,
}

impl SyncInterval {
    /// The interval's length in seconds.
    pub open spec fn spec_seconds(&self) -> int {
        match self {
            SyncInterval::Hour => 3600,
            SyncInterval::Day => 86400,
            SyncInterval::Week => 604800,
        }
    }

    /// The interval's length in seconds.
    pub fn seconds(&self) -> (r: i64)
        ensures
            r == self.spec_seconds(),
    {
        match self {
            SyncInterval::Hour => 3600,
            SyncInterval::Day => 86400,
            SyncInterval::Week => 604800,
        }
    }

    /// The interval's stored textual form.
    pub fn to_value(&self) -> (r: String)
        ensures
            match self {
                SyncInterval::Hour => r@ == "hour"@,
                SyncInterval::Day => r@ == "day"@,
                SyncInterval::Week => r@ == "week"@,
            },
    {
        match self {
            SyncInterval::Hour => String::from_str("hour"),
            SyncInterval::Day => String::from_str("day"),
            SyncInterval::Week => String::from_str("week"),
        }
    }

    /// Read an interval back from its stored textual form.
    pub fn try_from_value(value: &str) -> (r: Result<SyncInterval, SyncError>)
        ensures
            match r {
                Ok(iv) => parsed_interval_matches(value@, iv),
                Err(e) => !interval_value_parses(value@) && (e matches SyncError::StorageError(m)
                    && m@ == "invalid sync interval: "@ + value@),
            },
    {
        if crate::endpoint::str_eq(value, "hour") {
            Ok(SyncInterval::Hour)
        } else if crate::endpoint::str_eq(value, "day") {
            Ok(SyncInterval::Day)
        } else if crate::endpoint::str_eq(value, "week") {
            Ok(SyncInterval::Week)
        } else {
            Err(SyncError::StorageError(
                String::from_str("invalid sync interval: ").concat(value),
            ))
        }
    }
}

/// Whether a stored interval value parses, and to which interval.
pub open spec fn parsed_interval_matches(value: Seq<char>, iv: SyncInterval) -> bool {
    ||| value == "hour"@ && iv == SyncInterval::Hour
    ||| value == "day"@ && iv == SyncInterval::Day
    ||| value == "week"@ && iv == SyncInterval::Week
}

/// Whether a stored interval value parses at all.
pub open spec fn interval_value_parses(value: Seq<char>) -> bool {
    value == "hour"@ || value == "day"@ || value == "week"@
}

/// One persisted sync rule: a directed relationship between a source and a
/// target endpoint for one user.
#[derive(Debug)]
pub struct Watcher {
    pub id: u32,
    /// Canonical resource form of the owning user.
    pub user_uri: String,
    pub playlist_from: PlaylistType,
    pub playlist_to: PlaylistType,
    /// Whether a successful run sweeps the pre-run source set from the source.
    pub should_remove: bool,
    pub sync_interval: SyncInterval,
    /// When the watcher last ran, in seconds since the Unix epoch.
    pub last_sync_at: Option<i64>,
    /// When the watcher is next eligible; none means due now.
    pub next_sync_at: Option<i64>,
    pub created_at: i64,
}

impl Clone for Watcher {
    fn clone(&self) -> (r: Watcher)
        ensures
            r == *self,
    {
        Watcher {
            id: self.id,
            user_uri: self.user_uri.clone(),
            playlist_from: self.playlist_from.clone(),
            playlist_to: self.playlist_to.clone(),
            should_remove: self.should_remove,
            sync_interval: self.sync_interval,
            last_sync_at: self.last_sync_at,
            next_sync_at: self.next_sync_at,
            created_at: self.created_at,
        }
    }
}

/// A watcher is due when it has no next run time or that time has arrived.
pub open spec fn spec_is_due(w: Watcher, now: i64) -> bool {
    match w.next_sync_at {
        None => true,
        Some(t) => t <= now,
    }
}

impl Watcher {
    /// Whether the watcher is due at `now`: its next run time is unset or has
    /// arrived.
    pub fn is_due(&self, now: i64) -> (r: bool)
        ensures
            r == spec_is_due(*self, now),
    {
        match self.next_sync_at {
            None => true,
            Some(t) => t <= now,
        }
    }

    /// Build a watcher from the plain values of one stored row; the endpoint
    /// and interval columns carry tagged textual forms, and a row decodes
    /// exactly when all three of them parse.
    pub fn try_from_row_data(
        id: u32,
        user_uri: String,
        playlist_from: &str,
        playlist_to: &str,
        should_remove: bool,
        sync_interval: &str,
        last_sync_at: Option<i64>,
        next_sync_at: Option<i64>,
        created_at: i64,
    ) -> (r: Result<Watcher, SyncError>)
        ensures
            r is Ok <==> crate::endpoint::endpoint_value_parses(playlist_from@)
                && crate::endpoint::endpoint_value_parses(playlist_to@) && interval_value_parses(
                sync_interval@,
            ),
            match r {
                Ok(w) => {
                    &&& w.id == id
                    &&& w.user_uri == user_uri
                    &&& crate::endpoint::parsed_endpoint_matches(playlist_from@, w.playlist_from)
                    &&& crate::endpoint::parsed_endpoint_matches(playlist_to@, w.playlist_to)
                    &&& w.should_remove == should_remove
                    &&& parsed_interval_matches(sync_interval@, w.sync_interval)
                    &&& w.last_sync_at == last_sync_at
                    &&& w.next_sync_at == next_sync_at
                    &&& w.created_at == created_at
                },
                Err(_) => true,
            },
    {
        let from = match PlaylistType::try_from_value(playlist_from) {
            Ok(v) => v,
            Err(e) => {
                return Err(SyncError::from_client(e));
            },
        };
        let to = match PlaylistType::try_from_value(playlist_to) {
            Ok(v) => v,
            Err(e) => {
                return Err(SyncError::from_client(e));
            },
        };
        let interval = match SyncInterval::try_from_value(sync_interval) {
            Ok(v) => v,
            Err(e) => {
                return Err(e);
            },
        };
        Ok(Watcher {
            id,
            user_uri,
            playlist_from: from,
            playlist_to: to,
            should_remove,
            sync_interval: interval,
            last_sync_at,
            next_sync_at,
            created_at,
        })
    }
}

/// The watchers of `ws` that are due at `now`, in their stored order.
pub fn select_due(ws: &Vec<Watcher>, now: i64) -> (r: Vec<Watcher>)
    ensures
        r@ == ws@.filter(|w: Watcher| spec_is_due(w, now)),
{
    let mut out: Vec<Watcher> = Vec::new();
    let n: usize = ws.len();
    let mut i: usize = 0;
    while i < n
        invariant
            0 <= i <= n,
            n == ws@.len(),
            out@ == ws@.take(i as int).filter(|w: Watcher| spec_is_due(w, now)),
        decreases n - i,
    {
        if ws[i].is_due(now) {
            out.push(ws[i].clone());
        }
        i = i + 1;
        proof {
            assert(ws@.take(i as int).drop_last() =~= ws@.take(i - 1));
            assert(ws@.take(i as int).last() == ws@[i - 1]);
            reveal(Seq::filter);
        }
    }
    proof {
        assert(ws@.take(n as int) =~= ws@);
    }
    out
}

/// When the scheduler wakes next: the current minute's start plus the check
/// interval. The check interval governs how often due watchers are looked
/// for, independently of any watcher's own sync interval.
pub fn next_check_at(now: i64, check_interval_mins: i64) -> (r: i64)
    requires
        0 <= now,
        1 <= check_interval_mins,
        now + 60 * check_interval_mins <= i64::MAX,
    ensures
        r == now - now % 60 + 60 * check_interval_mins,
        now < r,
{
    now - now % 60 + 60 * check_interval_mins
}

/// What to write to the transfer log for one run.
#[derive(Debug)]
pub struct OutcomeRecord {
    pub watcher_id: u32,
    pub num_tracks_transferred: u32,
    /// The failure's textual form, if the run failed.
    pub error: Option<String>,
    /// The tick instant the run belonged to.
    pub synced_at: i64,
}

/// One persisted transfer-log row.
#[derive(Debug)]
pub struct Transfer {
    pub id: u32,
    pub watcher_id: u32,
    pub num_tracks_transferred: u32,
    pub error: Option<String>,
    pub created_at: i64,
}

/// Everything the scheduler persists after one watcher's run.
#[derive(Debug)]
pub struct RunConclusion {
    /// The watcher's new last-run instant: the tick's `now`, success or not.
    pub last_sync_at: i64,
    /// The watcher's new next-run instant: `now` plus its interval, success
    /// or not — a failing watcher is rescheduled, never retried in a tight
    /// loop.
    pub next_sync_at: i64,
    /// The outcome record, present exactly when the run did work or failed;
    /// a run that had nothing to do leaves no record.
    pub outcome: Option<OutcomeRecord>,
}

/// What concluding one run must produce.
pub open spec fn conclusion_matches(
    w: Watcher,
    result: Result<u32, SyncError>,
    now: i64,
    r: RunConclusion,
) -> bool {
    &&& r.last_sync_at == now
    &&& r.next_sync_at == now + w.sync_interval.spec_seconds()
    &&& match result {
        Ok(n) => if n == 0 {
            r.outcome is None
        } else {
            r.outcome matches Some(o) && o.watcher_id == w.id && o.num_tracks_transferred == n
                && o.error is None && o.synced_at == now
        },
        Err(e) => r.outcome matches Some(o) && o.watcher_id == w.id && o.num_tracks_transferred
            == 0 && (o.error matches Some(m) && m@ == spec_error_text(e)) && o.synced_at == now,
    }
}

/// The textual form `SyncError::message` produces.
pub open spec fn spec_error_text(e: SyncError) -> Seq<char> {
    match e {
        SyncError::InvalidTransfer(s) => "invalid transfer: "@ + s@,
        SyncError::CredentialError(s) => "credential error: "@ + s@,
        SyncError::RemoteApiError { status, message } => "spotify "@ + dec_str(status as int)
            + " error: "@ + message@,
        SyncError::RateLimited => "too many requests"@,
        SyncError::StorageError(s) => "storage error: "@ + s@,
    }
}

/// Conclude one watcher's run: advance the schedule regardless of success or
/// failure, and produce an outcome record exactly when the run inserted
/// tracks or failed.
pub fn conclude_run(w: &Watcher, result: &Result<u32, SyncError>, now: i64) -> (r: RunConclusion)
    requires
        0 <= now,
        now + w.sync_interval.spec_seconds() <= i64::MAX,
    ensures
        conclusion_matches(*w, *result, now, r),
{
    let next = now + w.sync_interval.seconds();
    match result {
        Ok(n) => {
            if *n == 0 {
                RunConclusion { last_sync_at: now, next_sync_at: next, outcome: None }
            } else {
                RunConclusion {
                    last_sync_at: now,
                    next_sync_at: next,
                    outcome: Some(OutcomeRecord {
                        watcher_id: w.id,
                        num_tracks_transferred: *n,
                        error: None,
                        synced_at: now,
                    }),
                }
            }
        },
        Err(e) => RunConclusion {
            last_sync_at: now,
            next_sync_at: next,
            outcome: Some(OutcomeRecord {
                watcher_id: w.id,
                num_tracks_transferred: 0,
                error: Some(e.message()),
                synced_at: now,
            }),
        },
    }
}

/// Conclude a whole tick's batch. Each watcher's conclusion is a function of
/// its own watcher and result alone: one watcher's failure never aborts the
/// batch or touches another watcher's schedule or record, and every watcher
/// of the batch — failing ones included — is rescheduled.
pub fn conclude_batch(
    ws: &Vec<Watcher>,
    results: &Vec<Result<u32, SyncError>>,
    now: i64,
) -> (r: Vec<RunConclusion>)
    requires
        ws@.len() == results@.len(),
        0 <= now,
        now + SyncInterval::Week.spec_seconds() <= i64::MAX,
    ensures
        r@.len() == ws@.len(),
        forall|i: int|
            0 <= i < ws@.len() ==> conclusion_matches(
                ws@[i],
                results@[i],
                now,
                #[trigger] r@[i],
            ),
{
    let n: usize = ws.len();
    let mut out: Vec<RunConclusion> = Vec::new();
    let mut i: usize = 0;
    while i < n
        invariant
            0 <= i <= n,
            n == ws@.len(),
            results@.len() == n,
            0 <= now,
            now + SyncInterval::Week.spec_seconds() <= i64::MAX,
            out@.len() == i,
            forall|j: int|
                0 <= j < i ==> conclusion_matches(ws@[j], results@[j], now, #[trigger] out@[j]),
        decreases n - i,
    {
        proof {
            assert(ws@[i as int].sync_interval.spec_seconds() <= 604800);
        }
        let c = conclude_run(&ws[i], &results[i], now);
        out.push(c);
        i = i + 1;
    }
    out
}

} // verus!

//! The set-difference heart of a transfer: collect the distinct track
//! identifiers of a listing in reading order, subtract the target's
//! identifiers, and reverse the remainder so that items read newest-first are
//! written oldest-first.

use vstd::prelude::*;

use crate::ids::TrackId;
use crate::model::{TrackPartial, TrackType};

verus! {

/// The character sequences of a run of track identifiers.
pub open spec fn id_views(ids: Seq<TrackId>) -> Seq<Seq<char>> {
    ids.map_values(|t: TrackId| t@)
}

/// The identifiers of the track-kind items of `tracks`, in reading order,
/// first occurrence kept: what one read of a source or target collection
/// contributes to the diff.
pub open spec fn collected_track_ids(tracks: Seq<TrackPartial>) -> Seq<Seq<char>>
    decreases tracks.len(),
{
    if tracks.len() == 0 {
        Seq::empty()
    } else {
        let prefix = collected_track_ids(tracks.drop_last());
        let t = tracks.last();
        if t.kind is Track && !prefix.contains(t.id@) {
            prefix.push(t.id@)
        } else {
            prefix
        }
    }
}

/// The elements of `s` that do not occur in `t`, in the order of `s`.
pub open spec fn seq_diff(s: Seq<Seq<char>>, t: Seq<Seq<char>>) -> Seq<Seq<char>>
    decreases s.len(),
{
    if s.len() == 0 {
        Seq::empty()
    } else {
        let prefix = seq_diff(s.drop_last(), t);
        if !t.contains(s.last()) {
            prefix.push(s.last())
        } else {
            prefix
        }
    }
}

/// No element occurs twice.
pub open spec fn distinct(s: Seq<Seq<char>>) -> bool {
    forall|i: int, j: int| 0 <= i < j < s.len() ==> s[i] != s[j]
}

/// An element stands in the difference exactly when it stands in `s` and not
/// in `t`.
pub proof fn lemma_seq_diff_membership(s: Seq<Seq<char>>, t: Seq<Seq<char>>)
    ensures
        forall|x: Seq<char>|
            #[trigger] seq_diff(s, t).contains(x) <==> s.contains(x) && !t.contains(x),
    decreases s.len(),
{
    if s.len() == 0 {
    } else {
        lemma_seq_diff_membership(s.drop_last(), t);
        let d = seq_diff(s, t);
        let dp = seq_diff(s.drop_last(), t);
        let y = s.last();
        assert forall|x: Seq<char>| #[trigger] d.contains(x) implies s.contains(x)
            && !t.contains(x) by {
            let i = choose|i: int| 0 <= i < d.len() && d[i] == x;
            if i < dp.len() {
                assert(dp[i] == x);
                assert(dp.contains(x));
                let j = choose|j: int| 0 <= j < s.drop_last().len() && s.drop_last()[j] == x;
                assert(s[j] == x);
            } else {
                assert(x == y);
                assert(s[s.len() - 1] == x);
            }
        }
        assert forall|x: Seq<char>| s.contains(x) && !t.contains(x) implies #[trigger] d.contains(
            x,
        ) by {
            let i = choose|i: int| 0 <= i < s.len() && s[i] == x;
            if i < s.len() - 1 {
                assert(s.drop_last()[i] == x);
                assert(s.drop_last().contains(x));
                assert(dp.contains(x));
                let j = choose|j: int| 0 <= j < dp.len() && dp[j] == x;
                assert(d[j] == x);
            } else {
                assert(x == y);
                assert(!t.contains(y));
                assert(d[d.len() - 1] == y);
            }
        }
    }
}

/// A listing never contributes more identifiers than it has items.
pub proof fn lemma_collected_track_ids_len(tracks: Seq<TrackPartial>)
    ensures
        collected_track_ids(tracks).len() <= tracks.len(),
    decreases tracks.len(),
{
    if tracks.len() == 0 {
    } else {
        lemma_collected_track_ids_len(tracks.drop_last());
    }
}

/// The difference never holds more elements than its left operand.
pub proof fn lemma_seq_diff_len(s: Seq<Seq<char>>, t: Seq<Seq<char>>)
    ensures
        seq_diff(s, t).len() <= s.len(),
    decreases s.len(),
{
    if s.len() == 0 {
    } else {
        lemma_seq_diff_len(s.drop_last(), t);
    }
}

/// Subtracting a collection an element already belongs to never keeps it: a
/// second transfer over an unchanged source inserts nothing, because
/// everything the first pass inserted now stands in the target.
///
/// `target_after` is any reading of the target whose membership is the old
/// membership plus the first pass's insertions.
pub proof fn lemma_second_pass_inserts_nothing(
    source: Seq<Seq<char>>,
    target: Seq<Seq<char>>,
    target_after: Seq<Seq<char>>,
)
    requires
        forall|x: Seq<char>|
            #[trigger] target_after.contains(x) <==> target.contains(x) || seq_diff(
                source,
                target,
            ).contains(x),
    ensures
        seq_diff(source, target_after) =~= Seq::<Seq<char>>::empty(),
{
    lemma_seq_diff_membership(source, target);
    lemma_seq_diff_membership(source, target_after);
    let d = seq_diff(source, target_after);
    if d.len() > 0 {
        assert(d.contains(d[0]));
        assert(false);
    }
}

/// The difference is exactly the set difference, and inserting it into the
/// target makes the target's membership the union of both collections.
pub proof fn lemma_diff_is_set_difference(s: Seq<Seq<char>>, t: Seq<Seq<char>>)
    ensures
        forall|x: Seq<char>|
            #[trigger] seq_diff(s, t).contains(x) <==> s.contains(x) && !t.contains(x),
        forall|x: Seq<char>|
            #[trigger] (t + seq_diff(s, t)).contains(x) <==> s.contains(x) || t.contains(x),
{
    lemma_seq_diff_membership(s, t);
    let d = seq_diff(s, t);
    assert forall|x: Seq<char>| #[trigger] (t + d).contains(x) implies s.contains(x)
        || t.contains(x) by {
        let i = choose|i: int| 0 <= i < (t + d).len() && (t + d)[i] == x;
        if i < t.len() {
            assert(t[i] == x);
            assert(t.contains(x));
        } else {
            assert(d[i - t.len()] == x);
            assert(d.contains(x));
            assert(s.contains(x));
        }
    }
    assert forall|x: Seq<char>| s.contains(x) || t.contains(x) implies (t + d).contains(x) by {
        if t.contains(x) {
            let i = choose|i: int| 0 <= i < t.len() && t[i] == x;
            assert((t + d)[i] == x);
        } else {
            assert(d.contains(x));
            let i = choose|i: int| 0 <= i < d.len() && d[i] == x;
            assert((t + d)[t.len() + i] == x);
        }
    }
}

/// Whether `x` occurs among `ids`.
pub fn contains_id(ids: &Vec<TrackId>, x: &TrackId) -> (r: bool)
    ensures
        r == id_views(ids@).contains(x@),
{
    let n: usize = ids.len();
    let mut i: usize = 0;
    while i < n
        invariant
            0 <= i <= n,
            n == ids@.len(),
            forall|k: int| 0 <= k < i ==> id_views(ids@)[k] != x@,
        decreases n - i,
    {
        if &ids[i] == x {
            proof {
                assert(id_views(ids@)[i as int] == x@);
            }
            return true;
        }
        i = i + 1;
    }
    false
}

/// Collect the identifiers of the track-kind items of a listing, dropping
/// repeats, in reading order.
pub fn collect_track_ids(tracks: &Vec<TrackPartial>) -> (r: Vec<TrackId>)
    ensures
        id_views(r@) == collected_track_ids(tracks@),
{
    let mut out: Vec<TrackId> = Vec::new();
    let n: usize = tracks.len();
    let mut i: usize = 0;
    while i < n
        invariant
            0 <= i <= n,
            n == tracks@.len(),
            id_views(out@) == collected_track_ids(tracks@.take(i as int)),
        decreases n - i,
    {
        let is_track = matches!(tracks[i].kind, TrackType::Track);
        if is_track && !contains_id(&out, &tracks[i].id) {
            out.push(tracks[i].id.clone());
            proof {
                assert(id_views(out@) =~= id_views(out@.drop_last()).push(tracks@[i as int].id@));
            }
        }
        i = i + 1;
        proof {
            assert(tracks@.take(i as int).drop_last() =~= tracks@.take(i - 1));
            assert(tracks@.take(i as int).last() == tracks@[i - 1]);
        }
    }
    proof {
        assert(tracks@.take(n as int) =~= tracks@);
    }
    out
}

/// The elements of `source` that do not occur in `target`, in source order.
pub fn diff_ids(source: &Vec<TrackId>, target: &Vec<TrackId>) -> (r: Vec<TrackId>)
    ensures
        id_views(r@) == seq_diff(id_views(source@), id_views(target@)),
{
    let mut out: Vec<TrackId> = Vec::new();
    let n: usize = source.len();
    let mut i: usize = 0;
    while i < n
        invariant
            0 <= i <= n,
            n == source@.len(),
            id_views(out@) == seq_diff(id_views(source@).take(i as int), id_views(target@)),
        decreases n - i,
    {
        if !contains_id(target, &source[i]) {
            out.push(source[i].clone());
            proof {
                assert(id_views(out@) =~= id_views(out@.drop_last()).push(source@[i as int]@));
            }
        }
        i = i + 1;
        proof {
            assert(id_views(source@).take(i as int).drop_last() =~= id_views(source@).take(i - 1));
            assert(id_views(source@).take(i as int).last() == source@[i - 1]@);
        }
    }
    proof {
        assert(id_views(source@).take(n as int) =~= id_views(source@));
    }
    out
}

/// The same identifiers in the opposite order.
pub fn reversed_ids(v: &Vec<TrackId>) -> (r: Vec<TrackId>)
    ensures
        r@ == v@.reverse(),
{
    let n: usize = v.len();
    let mut out: Vec<TrackId> = Vec::new();
    let mut i: usize = 0;
    while i < n
        invariant
            0 <= i <= n,
            n == v@.len(),
            out@.len() == i,
            forall|k: int| 0 <= k < i ==> out@[k] == v@[n - 1 - k],
        decreases n - i,
    {
        out.push(v[n - 1 - i].clone());
        i = i + 1;
    }
    proof {
        assert(out@ =~= v@.reverse());
    }
    out
}

/// The identifiers missing from the target, reversed so that a source read
/// newest-first is written oldest-first.
pub fn ids_to_insert(source: &Vec<TrackId>, target: &Vec<TrackId>) -> (r: Vec<TrackId>)
    ensures
        id_views(r@) == seq_diff(id_views(source@), id_views(target@)).reverse(),
{
    let d = diff_ids(source, target);
    let r = reversed_ids(&d);
    proof {
        assert(id_views(r@) =~= id_views(d@).reverse());
    }
    r
}

} // verus!

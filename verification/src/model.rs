//! Views of remote API resources that the engine reads: users, playlists,
//! their display data, and the track references that transfers move around.

use vstd::prelude::*;

use crate::ids::{PlaylistId, SnapshotId, TrackId, UserId};

verus! {

/// Discriminant of a playable item: only tracks take part in transfers.
#[derive(Debug, Clone, Copy, PartialEq, Eq, Structural)]
pub enum TrackType {
    /// A podcast episode or other non-track playable item.
    Episode,
    /// An ordinary track.
    Track,
}

/// The slice of a playable item that the engine needs: its identifier and
/// whether it is a track.
#[derive(Debug)]
pub struct TrackPartial {
    pub id: TrackId,
    pub kind: TrackType,
}

impl Clone for TrackPartial {
    fn clone(&self) -> (r: TrackPartial)
        ensures
            r == *self,
    {
        TrackPartial { id: self.id.clone(), kind: self.kind }
    }
}

/// One image attached to a resource, with its optional pixel dimensions.
#[derive(Debug)]
pub struct Image {
    pub url: String,
    pub width: Option<i32>,
    pub height: Option<i32>,
}

impl Clone for Image {
    fn clone(&self) -> (r: Image)
        ensures
            r == *self,
    {
        Image { url: self.url.clone(), width: self.width, height: self.height }
    }
}

/// The identifier of a playlist's owner.
#[derive(Debug)]
pub struct Owner {
    pub id: UserId,
}

impl Clone for Owner {
    fn clone(&self) -> (r: Owner)
        ensures
            r == *self,
    {
        Owner { id: self.id.clone() }
    }
}

/// Links a resource carries to its public pages.
#[derive(Debug)]
pub struct ExternalUrls {
    /// Address of the resource on the provider's site.
    pub spotify: String,
}

impl Clone for ExternalUrls {
    fn clone(&self) -> (r: ExternalUrls)
        ensures
            r == *self,
    {
        ExternalUrls { spotify: self.spotify.clone() }
    }
}

/// The display slice of a playlist.
#[derive(Debug)]
pub struct PlaylistPartial {
    pub id: PlaylistId,
    pub name: String,
    pub snapshot_id: SnapshotId,
    pub images: Option<Vec<Image>>,
    pub owner: Owner,
    pub external_urls: ExternalUrls,
}

/// The display slice of a user.
#[derive(Debug)]
pub struct User {
    pub id: UserId,
    pub display_name: String,
    pub images: Option<Vec<Image>>,
    pub external_urls: ExternalUrls,
}

/// One entry of a playlist listing: the wrapped track, if any, and whether it
/// is a locally uploaded item that cannot be synced.
#[derive(Debug)]
pub struct PlaylistEntry {
    pub is_local: bool,
    pub track: Option<TrackPartial>,
}

/// One entry of the saved-tracks listing: a wrapper object around the track.
#[derive(Debug)]
pub struct SavedItem {
    pub track: TrackPartial,
}

/// The playable items of `items` in order: non-local entries that carry a
/// track, unwrapped.
pub open spec fn playlist_tracks(items: Seq<PlaylistEntry>) -> Seq<TrackPartial>
    decreases items.len(),
{
    if items.len() == 0 {
        Seq::empty()
    } else {
        let prefix = playlist_tracks(items.drop_last());
        let item = items.last();
        if !item.is_local && item.track is Some {
            prefix.push(item.track->Some_0)
        } else {
            prefix
        }
    }
}

/// The tracks of `items` in order, unwrapped.
pub open spec fn saved_tracks(items: Seq<SavedItem>) -> Seq<TrackPartial> {
    items.map_values(|item: SavedItem| item.track)
}

/// Keep the syncable entries of a playlist listing: drop locally uploaded
/// items and entries without a track, and unwrap the rest.
pub fn filter_playlist_items(items: Vec<PlaylistEntry>) -> (r: Vec<TrackPartial>)
    ensures
        r@ == playlist_tracks(items@),
{
    let mut r: Vec<TrackPartial> = Vec::new();
    let n: usize = items.len();
    let mut i: usize = 0;
    while i < n
        invariant
            0 <= i <= n,
            n == items@.len(),
            r@ == playlist_tracks(items@.take(i as int)),
        decreases n - i,
    {
        match (&items[i].is_local, &items[i].track) {
            (false, Some(track)) => {
                r.push(track.clone());
            },
            _ => {},
        }
        i = i + 1;
        proof {
            assert(items@.take(i as int).drop_last() =~= items@.take(i - 1));
            assert(items@.take(i as int).last() == items@[i - 1]);
        }
    }
    proof {
        assert(items@.take(n as int) =~= items@);
    }
    r
}

/// Unwrap a saved-tracks listing.
pub fn unwrap_saved_items(items: Vec<SavedItem>) -> (r: Vec<TrackPartial>)
    ensures
        r@ == saved_tracks(items@),
{
    let mut r: Vec<TrackPartial> = Vec::new();
    let n: usize = items.len();
    let mut i: usize = 0;
    while i < n
        invariant
            0 <= i <= n,
            n == items@.len(),
            r@ == saved_tracks(items@.take(i as int)),
        decreases n - i,
    {
        r.push(items[i].track.clone());
        i = i + 1;
        proof {
            assert(saved_tracks(items@.take(i as int)) =~= saved_tracks(
                items@.take(i - 1),
            ).push(items@[i - 1].track));
        }
    }
    proof {
        assert(items@.take(n as int) =~= items@);
    }
    r
}

} // verus!

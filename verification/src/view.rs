//! Display data for the dashboard: the reduced playlist records the pages
//! show, and the selection logic that picks which stored playlist data backs
//! each watcher row.

use vstd::prelude::*;

use crate::config::Config;
use crate::endpoint::PlaylistType;
use crate::ids::PlaylistId;
use crate::model::{Image, PlaylistPartial};
use crate::schedule::Watcher;

verus! {

/// Address of the saved-tracks collection on the provider's site.
pub const SPOTIFY_LIKED_TRACKS_URL: &'static str = "https://open.spotify.com/collection/tracks";

/// Key of the provider's own page in a resource's external links.
pub const SPOTIFY_EXTERNAL_URL_KEY: &'static str = "spotify";

/// What the connect page needs: the authorization address to send the user
/// to.
#[derive(Debug)]
pub struct ConnectTemplate {
    pub url: String,
}

/// One playlist as the dashboard shows it.
#[derive(Debug)]
pub struct DisplayPlaylist {
    /// The playlist's identifier; the saved-tracks collection has none.
    pub id: Option<PlaylistId>,
    pub name: String,
    pub image_url: Option<String>,
    pub spotify_url: String,
}

impl Clone for DisplayPlaylist {
    fn clone(&self) -> (r: DisplayPlaylist)
        ensures
            r == *self,
    {
        DisplayPlaylist {
            id: match &self.id {
                Some(pid) => Some(pid.clone()),
                None => None,
            },
            name: self.name.clone(),
            image_url: match &self.image_url {
                Some(u) => Some(u.clone()),
                None => None,
            },
            spotify_url: self.spotify_url.clone(),
        }
    }
}

/// An endpoint of a watcher paired with the display data that backs it.
#[derive(Debug)]
pub struct PlaylistItem {
    pub kind: PlaylistType,
    pub display: DisplayPlaylist,
}

/// What the dashboard page needs.
#[derive(Debug)]
pub struct DashboardTemplate {
    pub config: Config,
    /// The user's display name.
    pub name: String,
    pub watchers: Vec<Watcher>,
    /// Display data of every playlist a watcher can refer to.
    pub all_playlists: Vec<DisplayPlaylist>,
    /// Display data of the playlists the user owns.
    pub user_playlists: Vec<DisplayPlaylist>,
}

/// Index of the image the dashboard shows: the last image of minimal width
/// among those with a known width.
pub open spec fn best_image_idx(images: Seq<Image>) -> Option<int>
    decreases images.len(),
{
    if images.len() == 0 {
        None
    } else {
        let prev = best_image_idx(images.drop_last());
        let l = images.last();
        if l.width is Some && (match prev {
            None => true,
            Some(p) => l.width->Some_0 <= images[p].width->Some_0,
        }) {
            Some(images.len() - 1)
        } else {
            prev
        }
    }
}

/// The image address the dashboard shows for a resource: none without
/// images, the only image's address when there is exactly one, and otherwise
/// the address of the smallest image of known width.
pub open spec fn spec_display_image(images: Option<Vec<Image>>) -> Option<String> {
    match images {
        None => None,
        Some(v) => if v@.len() == 0 {
            None
        } else if v@.len() == 1 {
            Some(v@[0].url)
        } else {
            match best_image_idx(v@) {
                Some(i) => Some(v@[i].url),
                None => None,
            }
        },
    }
}

/// Pick the image address the dashboard shows for a resource.
pub fn get_display_image(images: &Option<Vec<Image>>) -> (r: Option<String>)
    ensures
        r == spec_display_image(*images),
{
    let v = match images {
        Some(v) => v,
        None => {
            return None;
        },
    };
    let n: usize = v.len();
    if n == 0 {
        return None;
    }
    if n == 1 {
        return Some(v[0].url.clone());
    }
    let mut best: Option<usize> = None;
    let mut j: usize = 0;
    while j < n
        invariant
            0 <= j <= n,
            n == v@.len(),
            match best {
                None => best_image_idx(v@.take(j as int)) is None,
                Some(b) => 0 <= b < j && v@[b as int].width is Some && best_image_idx(
                    v@.take(j as int),
                ) == Some(b as int),
            },
        decreases n - j,
    {
        proof {
            assert(v@.take(j + 1).drop_last() =~= v@.take(j as int));
            assert(v@.take(j + 1).last() == v@[j as int]);
        }
        match &v[j].width {
            Some(w) => {
                let take_it = match best {
                    None => true,
                    Some(b) => match &v[b].width {
                        Some(bw) => *w <= *bw,
                        None => true,
                    },
                };
                if take_it {
                    best = Some(j);
                }
            },
            None => {},
        }
        j = j + 1;
    }
    proof {
        assert(v@.take(n as int) =~= v@);
    }
    match best {
        Some(b) => Some(v[b].url.clone()),
        None => None,
    }
}

/// Whether one stored display record is the one an identified endpoint
/// refers to.
pub open spec fn display_matches_id(d: DisplayPlaylist, pid: PlaylistId) -> bool {
    d.id matches Some(x) && x@ == pid@
}

/// Index of the first stored display record an identified endpoint refers
/// to.
pub open spec fn first_display_idx(all: Seq<DisplayPlaylist>, pid: PlaylistId) -> Option<int>
    decreases all.len(),
{
    if all.len() == 0 {
        None
    } else {
        match first_display_idx(all.drop_last(), pid) {
            Some(i) => Some(i),
            None => if display_matches_id(all.last(), pid) {
                Some(all.len() - 1)
            } else {
                None
            },
        }
    }
}

/// What looking an endpoint up among stored display records must produce:
/// the saved collection gets its fixed display row; an identified endpoint
/// gets the first stored record with its identifier, or nothing.
pub open spec fn display_lookup_matches(
    all: Seq<DisplayPlaylist>,
    playlist: PlaylistType,
    r: Option<PlaylistItem>,
) -> bool {
    match playlist {
        PlaylistType::Saved => r matches Some(item) && item.kind is Saved && item.display.id
            is None && item.display.name@ == "Liked Tracks"@ && item.display.image_url is None
            && item.display.spotify_url@ == "https://open.spotify.com/collection/tracks"@,
        PlaylistType::Id(pid) => match first_display_idx(all, pid) {
            Some(i) => r matches Some(item) && (item.kind matches PlaylistType::Id(q) && q@
                == pid@) && item.display == all[i],
            None => r is None,
        },
    }
}

/// A first match found while scanning forward stands for the whole listing.
proof fn lemma_first_display_idx_extend(all: Seq<DisplayPlaylist>, pid: PlaylistId, k: int)
    requires
        0 <= k <= all.len(),
        first_display_idx(all.take(k), pid) is Some,
    ensures
        first_display_idx(all, pid) == first_display_idx(all.take(k), pid),
    decreases all.len() - k,
{
    if k == all.len() {
        assert(all.take(k) =~= all);
    } else {
        assert(all.take(k + 1).drop_last() =~= all.take(k));
        assert(first_display_idx(all.take(k + 1), pid) == first_display_idx(all.take(k), pid));
        lemma_first_display_idx_extend(all, pid, k + 1);
    }
}

impl DashboardTemplate {
    /// The display rows backing a watcher's two endpoints.
    pub fn get_mapped_display_data(&self, watcher: &Watcher) -> (r: (
        Option<PlaylistItem>,
        Option<PlaylistItem>,
    ))
        ensures
            display_lookup_matches(self.all_playlists@, watcher.playlist_from, r.0),
            display_lookup_matches(self.all_playlists@, watcher.playlist_to, r.1),
    {
        (self.map_display_data(&watcher.playlist_from), self.map_display_data(&watcher.playlist_to))
    }

    /// The display row backing one endpoint, if any is stored.
    pub fn map_display_data(&self, playlist: &PlaylistType) -> (r: Option<PlaylistItem>)
        ensures
            display_lookup_matches(self.all_playlists@, *playlist, r),
    {
        match playlist {
            PlaylistType::Saved => {
                let item = PlaylistItem {
                    kind: PlaylistType::Saved,
                    display: DisplayPlaylist {
                        id: None,
                        name: String::from_str("Liked Tracks"),
                        image_url: None,
                        spotify_url: String::from_str(
                            "https://open.spotify.com/collection/tracks",
                        ),
                    },
                };
                Some(item)
            },
            PlaylistType::Id(pid) => {
                let n: usize = self.all_playlists.len();
                let mut i: usize = 0;
                while i < n
                    invariant
                        0 <= i <= n,
                        n == self.all_playlists@.len(),
                        *playlist == PlaylistType::Id(*pid),
                        first_display_idx(self.all_playlists@.take(i as int), *pid) is None,
                    decreases n - i,
                {
                    let hit = match &self.all_playlists[i].id {
                        Some(x) => x == pid,
                        None => false,
                    };
                    proof {
                        assert(self.all_playlists@.take(i + 1).drop_last()
                            =~= self.all_playlists@.take(i as int));
                        assert(self.all_playlists@.take(i + 1).last()
                            == self.all_playlists@[i as int]);
                    }
                    if hit {
                        let item = PlaylistItem {
                            kind: PlaylistType::Id(pid.clone()),
                            display: self.all_playlists[i].clone(),
                        };
                        proof {
                            let all = self.all_playlists@;
                            let w = i as int;
                            assert(first_display_idx(all.take(w + 1), *pid) == Some(w));
                            lemma_first_display_idx_extend(all, *pid, w + 1);
                        }
                        return Some(item);
                    }
                    i = i + 1;
                }
                proof {
                    assert(self.all_playlists@.take(n as int) =~= self.all_playlists@);
                }
                None
            },
        }
    }
}

impl DisplayPlaylist {
    /// Reduce a full playlist record to its display row.
    pub fn from_partial(data: PlaylistPartial) -> (r: DisplayPlaylist)
        ensures
            r.id matches Some(pid) && pid == data.id,
            r.name == data.name,
            r.image_url == spec_display_image(data.images),
            r.spotify_url == data.external_urls.spotify,
    {
        let image_url = get_display_image(&data.images);
        DisplayPlaylist {
            id: Some(data.id),
            name: data.name,
            image_url,
            spotify_url: data.external_urls.spotify,
        }
    }
}

/// The identifier an endpoint carries, if any: the saved collection has
/// none.
pub open spec fn endpoint_id_of(p: PlaylistType) -> Option<Seq<char>> {
    match p {
        PlaylistType::Saved => None,
        PlaylistType::Id(pid) => Some(pid@),
    }
}

/// The character sequences of a run of playlist identifiers.
pub open spec fn playlist_id_views(ids: Seq<PlaylistId>) -> Seq<Seq<char>> {
    ids.map_values(|p: PlaylistId| p@)
}

/// The identifiers of a run of playlist records.
pub open spec fn partial_id_views(ps: Seq<PlaylistPartial>) -> Seq<Seq<char>> {
    ps.map_values(|p: PlaylistPartial| p.id@)
}

/// Every distinct playlist identifier the watchers refer to, source before
/// target within each watcher, in watcher order.
pub open spec fn watcher_playlist_ids(ws: Seq<Watcher>) -> Seq<Seq<char>>
    decreases ws.len(),
{
    if ws.len() == 0 {
        Seq::empty()
    } else {
        let prefix = watcher_playlist_ids(ws.drop_last());
        let w = ws.last();
        let with_from = match endpoint_id_of(w.playlist_from) {
            Some(x) => if !prefix.contains(x) {
                prefix.push(x)
            } else {
                prefix
            },
            None => prefix,
        };
        match endpoint_id_of(w.playlist_to) {
            Some(y) => if !with_from.contains(y) {
                with_from.push(y)
            } else {
                with_from
            },
            None => with_from,
        }
    }
}

/// Whether `x` occurs among `ids`.
fn contains_playlist_id(ids: &Vec<PlaylistId>, x: &PlaylistId) -> (r: bool)
    ensures
        r == playlist_id_views(ids@).contains(x@),
{
    let n: usize = ids.len();
    let mut i: usize = 0;
    while i < n
        invariant
            0 <= i <= n,
            n == ids@.len(),
            forall|k: int| 0 <= k < i ==> playlist_id_views(ids@)[k] != x@,
        decreases n - i,
    {
        if &ids[i] == x {
            proof {
                assert(playlist_id_views(ids@)[i as int] == x@);
            }
            return true;
        }
        i = i + 1;
    }
    false
}

/// Whether any of these playlist records carries the identifier `x`.
fn partials_contain_id(ps: &Vec<PlaylistPartial>, x: &PlaylistId) -> (r: bool)
    ensures
        r == partial_id_views(ps@).contains(x@),
{
    let n: usize = ps.len();
    let mut i: usize = 0;
    while i < n
        invariant
            0 <= i <= n,
            n == ps@.len(),
            forall|k: int| 0 <= k < i ==> partial_id_views(ps@)[k] != x@,
        decreases n - i,
    {
        if &ps[i].id == x {
            proof {
                assert(partial_id_views(ps@)[i as int] == x@);
            }
            return true;
        }
        i = i + 1;
    }
    false
}

/// Record an endpoint's identifier, if it has one and is not yet recorded.
fn add_endpoint_id(acc: &mut Vec<PlaylistId>, p: &PlaylistType)
    ensures
        playlist_id_views(final(acc)@) == (match endpoint_id_of(*p) {
            Some(x) => if !playlist_id_views(old(acc)@).contains(x) {
                playlist_id_views(old(acc)@).push(x)
            } else {
                playlist_id_views(old(acc)@)
            },
            None => playlist_id_views(old(acc)@),
        }),
{
    match p {
        PlaylistType::Id(pid) => {
            if !contains_playlist_id(acc, pid) {
                acc.push(pid.clone());
                proof {
                    assert(playlist_id_views(acc@) =~= playlist_id_views(acc@.drop_last()).push(
                        pid@,
                    ));
                }
            }
        },
        PlaylistType::Saved => {},
    }
}

/// The playlists the watchers refer to that the user's own playlists do not
/// cover: the dashboard fetches these separately so every watcher row has
/// display data.
pub fn missing_playlist_ids(watchers: &Vec<Watcher>, user_playlists: &Vec<PlaylistPartial>) -> (r:
    Vec<PlaylistId>)
    ensures
        playlist_id_views(r@) == crate::diff::seq_diff(
            watcher_playlist_ids(watchers@),
            partial_id_views(user_playlists@),
        ),
{
    let mut referred: Vec<PlaylistId> = Vec::new();
    let n: usize = watchers.len();
    let mut i: usize = 0;
    while i < n
        invariant
            0 <= i <= n,
            n == watchers@.len(),
            playlist_id_views(referred@) == watcher_playlist_ids(watchers@.take(i as int)),
        decreases n - i,
    {
        proof {
            assert(watchers@.take(i + 1).drop_last() =~= watchers@.take(i as int));
            assert(watchers@.take(i + 1).last() == watchers@[i as int]);
        }
        add_endpoint_id(&mut referred, &watchers[i].playlist_from);
        add_endpoint_id(&mut referred, &watchers[i].playlist_to);
        i = i + 1;
    }
    proof {
        assert(watchers@.take(n as int) =~= watchers@);
    }
    let mut out: Vec<PlaylistId> = Vec::new();
    let m: usize = referred.len();
    let mut j: usize = 0;
    while j < m
        invariant
            0 <= j <= m,
            m == referred@.len(),
            playlist_id_views(referred@) == watcher_playlist_ids(watchers@),
            playlist_id_views(out@) == crate::diff::seq_diff(
                playlist_id_views(referred@).take(j as int),
                partial_id_views(user_playlists@),
            ),
        decreases m - j,
    {
        if !partials_contain_id(user_playlists, &referred[j]) {
            out.push(referred[j].clone());
            proof {
                assert(playlist_id_views(out@) =~= playlist_id_views(out@.drop_last()).push(
                    referred@[j as int]@,
                ));
            }
        }
        j = j + 1;
        proof {
            assert(playlist_id_views(referred@).take(j as int).drop_last() =~= playlist_id_views(
                referred@,
            ).take(j - 1));
            assert(playlist_id_views(referred@).take(j as int).last() == referred@[j - 1]@);
        }
    }
    proof {
        assert(playlist_id_views(referred@).take(m as int) =~= playlist_id_views(referred@));
    }
    out
}

} // verus!

//! Playlist endpoints: either the user's built-in saved-tracks collection or
//! an explicitly identified playlist, together with the tagged textual form
//! used by the persistence layer (`_liked` for the saved collection, the
//! canonical resource form for a playlist).

use vstd::prelude::*;

use crate::error::ClientError;
use crate::ids::{is_id_char, PlaylistId};

verus! {

/// Tag that stands for the saved-tracks collection in stored values.
pub const LIKED_PLAYLIST_VALUE: &'static str = "_liked";

/// One end of a transfer: the saved-tracks collection or a playlist.
#[derive(Debug)]
pub enum PlaylistType {
    /// The user's built-in liked/saved collection; singular per user and not
    /// addressable by an identifier.
    Saved,
    /// An explicitly identified playlist.
    Id(PlaylistId),
}

/// Whether two endpoints name the same collection.
pub open spec fn same_endpoint(a: PlaylistType, b: PlaylistType) -> bool {
    match (a, b) {
        (PlaylistType::Saved, PlaylistType::Saved) => true,
        (PlaylistType::Id(x), PlaylistType::Id(y)) => x@ == y@,
        _ => false,
    }
}

impl Clone for PlaylistType {
    fn clone(&self) -> (r: PlaylistType)
        ensures
            r == *self,
    {
        match self {
            PlaylistType::Saved => PlaylistType::Saved,
            PlaylistType::Id(pid) => PlaylistType::Id(pid.clone()),
        }
    }
}

impl PartialEq for PlaylistType {
    fn eq(&self, other: &PlaylistType) -> (r: bool) {
        match (self, other) {
            (PlaylistType::Saved, PlaylistType::Saved) => true,
            (PlaylistType::Id(x), PlaylistType::Id(y)) => x == y,
            _ => false,
        }
    }
}

impl vstd::std_specs::cmp::PartialEqSpecImpl for PlaylistType {
    open spec fn obeys_eq_spec() -> bool {
        true
    }

    open spec fn eq_spec(&self, other: &PlaylistType) -> bool {
        same_endpoint(*self, *other)
    }
}

impl PlaylistType {
    /// Render the endpoint as the tagged value stored in a watcher record.
    pub fn to_value(&self) -> (r: String)
        ensures
            match self {
                PlaylistType::Saved => r@ == "_liked"@,
                PlaylistType::Id(pid) => r@ == "spotify:playlist:"@ + pid@,
            },
    {
        match self {
            PlaylistType::Saved => String::from_str(LIKED_PLAYLIST_VALUE),
            PlaylistType::Id(pid) => pid.uri(),
        }
    }

    /// Read an endpoint back from its tagged stored value.
    pub fn try_from_value(value: &str) -> (r: Result<PlaylistType, ClientError>)
        ensures
            match r {
                Ok(pt) => parsed_endpoint_matches(value@, pt),
                Err(e) => !endpoint_value_parses(value@) && (e matches ClientError::InvalidId(m)
                    && m@ == value@),
            },
    {
        if str_eq(value, LIKED_PLAYLIST_VALUE) {
            Ok(PlaylistType::Saved)
        } else {
            match extract_playlist_id(value) {
                Ok(pid) => Ok(PlaylistType::Id(pid)),
                Err(e) => Err(e),
            }
        }
    }

    /// The endpoint's human-readable name: the fixed name of the saved
    /// collection, or the playlist's canonical resource form.
    pub fn display_name(&self) -> (r: String)
        ensures
            match self {
                PlaylistType::Saved => r@ == "Liked Tracks"@,
                PlaylistType::Id(pid) => r@ == "spotify:playlist:"@ + pid@,
            },
    {
        match self {
            PlaylistType::Saved => String::from_str("Liked Tracks"),
            PlaylistType::Id(pid) => pid.uri(),
        }
    }
}

/// Whether a stored endpoint value parses, and to which endpoint: the
/// saved-collection tag gives the saved collection, and any other value must
/// carry a prefixed playlist identifier.
pub open spec fn parsed_endpoint_matches(value: Seq<char>, pt: PlaylistType) -> bool {
    if value == "_liked"@ {
        pt is Saved
    } else {
        spec_extract_id(value) matches Some(id) && (pt matches PlaylistType::Id(pid) && pid@
            == id)
    }
}

/// Whether a stored endpoint value parses at all.
pub open spec fn endpoint_value_parses(value: Seq<char>) -> bool {
    value == "_liked"@ || spec_extract_id(value) is Some
}

/// Whether the characters of `p` stand in `s` beginning at `at`.
pub open spec fn occurs_at(s: Seq<char>, p: Seq<char>, at: int) -> bool {
    0 <= at && at + p.len() <= s.len() && s.subrange(at, at + p.len()) == p
}

/// One identifier character stands in `s` at `j`.
pub open spec fn id_char_at(s: Seq<char>, j: int) -> bool {
    0 <= j < s.len() && is_id_char(s[j])
}

/// End of the run of identifier characters that begins at `i`.
pub open spec fn run_end(s: Seq<char>, i: int) -> int
    decreases s.len() - i,
{
    if 0 <= i < s.len() && is_id_char(s[i]) {
        run_end(s, i + 1)
    } else {
        i
    }
}

/// Where an identifier begins if one of the recognised playlist prefixes,
/// tried in order, stands at `at` with at least one identifier character
/// after it.
pub open spec fn prefix_hit_at(s: Seq<char>, at: int) -> Option<int> {
    if occurs_at(s, "https://open.spotify.com/playlist/"@, at) && id_char_at(
        s,
        at + "https://open.spotify.com/playlist/"@.len(),
    ) {
        Some(at + "https://open.spotify.com/playlist/"@.len())
    } else if occurs_at(s, "http://open.spotify.com/playlist/"@, at) && id_char_at(
        s,
        at + "http://open.spotify.com/playlist/"@.len(),
    ) {
        Some(at + "http://open.spotify.com/playlist/"@.len())
    } else if occurs_at(s, "spotify:playlist:"@, at) && id_char_at(
        s,
        at + "spotify:playlist:"@.len(),
    ) {
        Some(at + "spotify:playlist:"@.len())
    } else {
        None
    }
}

/// Identifier bounds of the leftmost prefixed identifier at or after `at`.
pub open spec fn spec_extract_from(s: Seq<char>, at: int) -> Option<(int, int)>
    decreases s.len() - at,
{
    if !(0 <= at < s.len()) {
        None
    } else {
        match prefix_hit_at(s, at) {
            Some(start) => Some((start, run_end(s, start))),
            None => spec_extract_from(s, at + 1),
        }
    }
}

/// The identifier captured from the leftmost prefixed playlist reference in
/// `s`, if there is one.
pub open spec fn spec_extract_id(s: Seq<char>) -> Option<Seq<char>> {
    match spec_extract_from(s, 0) {
        Some((a, b)) => Some(s.subrange(a, b)),
        None => None,
    }
}

/// Compare two string slices by their characters.
pub fn str_eq(a: &str, b: &str) -> (r: bool)
    ensures
        r == (a@ == b@),
{
    let sa: String = a.to_owned();
    let sb: String = b.to_owned();
    sa == sb
}

/// Whether the characters of `p` stand in `s` beginning at `at`.
fn occurs_at_holds(s: &Vec<char>, p: &Vec<char>, at: usize) -> (r: bool)
    ensures
        r == occurs_at(s@, p@, at as int),
{
    let n: usize = s.len();
    let m: usize = p.len();
    if m > n || at > n - m {
        proof {
            assert(!occurs_at(s@, p@, at as int));
        }
        return false;
    }
    let mut i: usize = 0;
    while i < m
        invariant
            0 <= i <= m,
            m == p@.len(),
            n == s@.len(),
            at + m <= n,
            forall|k: int| 0 <= k < i ==> s@[at + k] == p@[k],
        decreases m - i,
    {
        if s[at + i] != p[i] {
            proof {
                assert(s@.subrange(at as int, at + p@.len())[i as int] != p@[i as int]);
            }
            return false;
        }
        i = i + 1;
    }
    proof {
        assert(s@.subrange(at as int, at + p@.len()) =~= p@);
    }
    true
}

/// Whether one identifier character stands in `s` at `j`.
fn id_char_at_holds(s: &Vec<char>, j: usize) -> (r: bool)
    ensures
        r == id_char_at(s@, j as int),
{
    if j >= s.len() {
        return false;
    }
    let c = s[j];
    ('a' <= c && c <= 'z') || ('A' <= c && c <= 'Z') || ('0' <= c && c <= '9')
}

/// Where an identifier begins if a recognised prefix stands at `at`.
fn prefix_hit_holds(s: &Vec<char>, at: usize) -> (r: Option<usize>)
    ensures
        match r {
            Some(start) => prefix_hit_at(s@, at as int) == Some(start as int),
            None => prefix_hit_at(s@, at as int) is None,
        },
{
    let n: usize = s.len();
    let p1 = crate::ids::chars_of("https://open.spotify.com/playlist/");
    if occurs_at_holds(s, &p1, at) && id_char_at_holds(s, at + p1.len()) {
        return Some(at + p1.len());
    }
    let p2 = crate::ids::chars_of("http://open.spotify.com/playlist/");
    if occurs_at_holds(s, &p2, at) && id_char_at_holds(s, at + p2.len()) {
        return Some(at + p2.len());
    }
    let p3 = crate::ids::chars_of("spotify:playlist:");
    if occurs_at_holds(s, &p3, at) && id_char_at_holds(s, at + p3.len()) {
        return Some(at + p3.len());
    }
    None
}

/// End of the run of identifier characters that begins at `i`.
fn run_end_from(s: &Vec<char>, i: usize) -> (r: usize)
    requires
        i <= s@.len(),
    ensures
        r == run_end(s@, i as int),
        i <= r <= s@.len(),
{
    let n: usize = s.len();
    let mut j: usize = i;
    while j < n
        invariant
            i <= j <= n,
            n == s@.len(),
            run_end(s@, i as int) == run_end(s@, j as int),
        decreases n - j,
    {
        let c = s[j];
        if !(('a' <= c && c <= 'z') || ('A' <= c && c <= 'Z') || ('0' <= c && c <= '9')) {
            proof {
                assert(run_end(s@, j as int) == j);
            }
            return j;
        }
        proof {
            assert(run_end(s@, j as int) == run_end(s@, j + 1));
        }
        j = j + 1;
    }
    j
}

/// Attempt to read a playlist identifier out of free-form text that names a
/// playlist by URL or canonical resource form.
pub fn extract_playlist_id(value: &str) -> (r: Result<PlaylistId, ClientError>)
    ensures
        match r {
            Ok(pid) => spec_extract_id(value@) == Some(pid@),
            Err(e) => spec_extract_id(value@) is None && (e matches ClientError::InvalidId(m)
                && m@ == value@),
        },
{
    let chars = crate::ids::chars_of(value);
    let n: usize = chars.len();
    let mut at: usize = 0;
    while at < n
        invariant
            0 <= at <= n,
            n == value@.len(),
            chars@ == value@,
            spec_extract_from(value@, 0) == spec_extract_from(value@, at as int),
        decreases n - at,
    {
        match prefix_hit_holds(&chars, at) {
            Some(start) => {
                let end: usize = run_end_from(&chars, start);
                let id = value.substring_char(start, end).to_owned();
                return Ok(PlaylistId(id));
            },
            None => {
                proof {
                    assert(spec_extract_from(value@, at as int) == spec_extract_from(
                        value@,
                        at + 1,
                    ));
                }
                at = at + 1;
            },
        }
    }
    Err(ClientError::InvalidId(value.to_owned()))
}

/// The leftmost prefixed identifier in its canonical resource form: what the
/// stored value of an identified endpoint holds.
pub fn try_extract_playlist_uri(value: &str) -> (r: Result<String, ClientError>)
    ensures
        match r {
            Ok(u) => spec_extract_id(value@) matches Some(id) && u@ == "spotify:playlist:"@ + id,
            Err(e) => spec_extract_id(value@) is None && (e matches ClientError::InvalidId(m)
                && m@ == value@),
        },
{
    match extract_playlist_id(value) {
        Ok(pid) => Ok(pid.uri()),
        Err(e) => Err(e),
    }
}

/// A run of identifier characters reaches to the end of the text.
proof fn lemma_run_end_of_id_run(s: Seq<char>, i: int)
    requires
        0 <= i <= s.len(),
        forall|k: int| i <= k < s.len() ==> is_id_char(#[trigger] s[k]),
    ensures
        run_end(s, i) == s.len(),
    decreases s.len() - i,
{
    if i < s.len() {
        lemma_run_end_of_id_run(s, i + 1);
    }
}

/// The stored form of an identified endpoint parses back to the same
/// identifier: `to_value` and `try_from_value` are inverses on well-formed
/// endpoints. The identifier must be non-empty and made of identifier
/// characters — which is true of everything the parsers produce — and its
/// stored form is never the saved-collection tag.
pub proof fn lemma_endpoint_value_round_trip(pid: PlaylistId)
    requires
        pid@.len() >= 1,
        forall|k: int| 0 <= k < pid@.len() ==> is_id_char(#[trigger] pid@[k]),
    ensures
        "spotify:playlist:"@ + pid@ != "_liked"@,
        spec_extract_id("spotify:playlist:"@ + pid@) == Some(pid@),
{
    reveal_strlit("spotify:playlist:");
    reveal_strlit("_liked");
    reveal_strlit("https://open.spotify.com/playlist/");
    reveal_strlit("http://open.spotify.com/playlist/");
    let v = "spotify:playlist:"@ + pid@;
    assert(v.len() == 17 + pid@.len());
    assert(v.len() != "_liked"@.len());

    let p1 = "https://open.spotify.com/playlist/"@;
    assert(!occurs_at(v, p1, 0)) by {
        if occurs_at(v, p1, 0) {
            assert(v.subrange(0, p1.len() as int)[0] == v[0]);
            assert(v[0] == 's');
            assert(p1[0] == 'h');
        }
    }
    let p2 = "http://open.spotify.com/playlist/"@;
    assert(!occurs_at(v, p2, 0)) by {
        if occurs_at(v, p2, 0) {
            assert(v.subrange(0, p2.len() as int)[0] == v[0]);
            assert(v[0] == 's');
            assert(p2[0] == 'h');
        }
    }
    let p3 = "spotify:playlist:"@;
    assert(v.subrange(0, 17) =~= p3);
    assert(v[17] == pid@[0]);
    assert(id_char_at(v, 17));
    assert(prefix_hit_at(v, 0) == Some(17int));
    assert(forall|k: int| 17 <= k < v.len() ==> is_id_char(#[trigger] v[k]));
    lemma_run_end_of_id_run(v, 17);
    assert(spec_extract_from(v, 0) == Some((17int, v.len() as int)));
    assert(v.subrange(17, v.len() as int) =~= pid@);
}

} // verus!

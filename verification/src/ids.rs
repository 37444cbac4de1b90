//! Stable identifiers for remote resources: playlists, tracks, users and
//! playlist snapshots, each a thin wrapper around its textual form, together
//! with the parser that reads a playlist identifier out of user input.
//!
//! A playlist can be named by a bare identifier (22 alphanumeric characters),
//! by its canonical `spotify:playlist:` form, or by a share URL; anything may
//! follow the identifier, such as query parameters.

use vstd::prelude::*;

use crate::error::ClientError;

verus! {

/// Identifier of an explicitly addressable playlist.
#[derive(Debug)]
pub struct PlaylistId(pub String);

/// Identifier of a playable track.
#[derive(Debug)]
pub struct TrackId(pub String);

/// Identifier of a user account.
#[derive(Debug)]
pub struct UserId(pub String);

/// Identifier of one revision of a playlist, handed back by write requests.
#[derive(Debug)]
pub struct SnapshotId(pub String);

impl View for PlaylistId {
    type V = Seq<char>;

    open spec fn view(&self) -> Seq<char> {
        self.0@
    }
}

impl View for TrackId {
    type V = Seq<char>;

    open spec fn view(&self) -> Seq<char> {
        self.0@
    }
}

impl View for UserId {
    type V = Seq<char>;

    open spec fn view(&self) -> Seq<char> {
        self.0@
    }
}

impl View for SnapshotId {
    type V = Seq<char>;

    open spec fn view(&self) -> Seq<char> {
        self.0@
    }
}

impl Clone for PlaylistId {
    fn clone(&self) -> (r: PlaylistId)
        ensures
            r == *self,
    {
        PlaylistId(self.0.clone())
    }
}

impl Clone for TrackId {
    fn clone(&self) -> (r: TrackId)
        ensures
            r == *self,
    {
        TrackId(self.0.clone())
    }
}

impl Clone for UserId {
    fn clone(&self) -> (r: UserId)
        ensures
            r == *self,
    {
        UserId(self.0.clone())
    }
}

impl Clone for SnapshotId {
    fn clone(&self) -> (r: SnapshotId)
        ensures
            r == *self,
    {
        SnapshotId(self.0.clone())
    }
}

impl PartialEq for PlaylistId {
    fn eq(&self, other: &PlaylistId) -> (r: bool) {
        self.0 == other.0
    }
}

impl vstd::std_specs::cmp::PartialEqSpecImpl for PlaylistId {
    open spec fn obeys_eq_spec() -> bool {
        true
    }

    open spec fn eq_spec(&self, other: &PlaylistId) -> bool {
        self@ == other@
    }
}

impl PartialEq for TrackId {
    fn eq(&self, other: &TrackId) -> (r: bool) {
        self.0 == other.0
    }
}

impl vstd::std_specs::cmp::PartialEqSpecImpl for TrackId {
    open spec fn obeys_eq_spec() -> bool {
        true
    }

    open spec fn eq_spec(&self, other: &TrackId) -> bool {
        self@ == other@
    }
}

impl PartialEq for UserId {
    fn eq(&self, other: &UserId) -> (r: bool) {
        self.0 == other.0
    }
}

impl vstd::std_specs::cmp::PartialEqSpecImpl for UserId {
    open spec fn obeys_eq_spec() -> bool {
        true
    }

    open spec fn eq_spec(&self, other: &UserId) -> bool {
        self@ == other@
    }
}

impl PartialEq for SnapshotId {
    fn eq(&self, other: &SnapshotId) -> (r: bool) {
        self.0 == other.0
    }
}

impl vstd::std_specs::cmp::PartialEqSpecImpl for SnapshotId {
    open spec fn obeys_eq_spec() -> bool {
        true
    }

    open spec fn eq_spec(&self, other: &SnapshotId) -> bool {
        self@ == other@
    }
}

/// Number of characters in a playlist identifier.
pub const PLAYLIST_ID_LEN: usize = 22;

/// Characters allowed in an identifier: ASCII letters and digits.
pub open spec fn is_id_char(c: char) -> bool {
    ('a' <= c && c <= 'z') || ('A' <= c && c <= 'Z') || ('0' <= c && c <= '9')
}

/// `count` identifier characters stand in `s` beginning at `start`.
pub open spec fn id_run_at(s: Seq<char>, start: int, count: int) -> bool {
    &&& 0 <= start
    &&& start + count <= s.len()
    &&& forall|k: int| start <= k < start + count ==> is_id_char(#[trigger] s[k])
}

/// `p` stands at the front of `s` and a full playlist identifier follows it.
pub open spec fn prefixed_id_at(s: Seq<char>, p: Seq<char>) -> bool {
    p.is_prefix_of(s) && id_run_at(s, p.len() as int, PLAYLIST_ID_LEN as int)
}

/// The playlist identifier read from `input`, if any: an optional recognised
/// prefix, tried longest first, must be followed by 22 identifier characters;
/// anything may follow them.
pub open spec fn spec_parse_playlist_input(s: Seq<char>) -> Option<Seq<char>> {
    if prefixed_id_at(s, "https://open.spotify.com/playlist/"@) {
        Some(capture_at(s, "https://open.spotify.com/playlist/"@.len() as int))
    } else if prefixed_id_at(s, "http://open.spotify.com/playlist/"@) {
        Some(capture_at(s, "http://open.spotify.com/playlist/"@.len() as int))
    } else if prefixed_id_at(s, "spotify:playlist:"@) {
        Some(capture_at(s, "spotify:playlist:"@.len() as int))
    } else if id_run_at(s, 0, PLAYLIST_ID_LEN as int) {
        Some(capture_at(s, 0))
    } else {
        None
    }
}

/// The 22 characters of `s` beginning at `start`.
pub open spec fn capture_at(s: Seq<char>, start: int) -> Seq<char> {
    s.subrange(start, start + PLAYLIST_ID_LEN as int)
}

impl PlaylistId {
    /// Render the playlist identifier in its canonical resource form.
    pub fn uri(&self) -> (r: String)
        ensures
            r@ == "spotify:playlist:"@ + self@,
    {
        let prefix = String::from_str("spotify:playlist:");
        prefix.concat(self.0.as_str())
    }

    /// Attempt to parse a playlist identifier from a share URL, a canonical
    /// resource name or a bare identifier.
    pub fn try_from_input(input: &str) -> (r: Result<PlaylistId, ClientError>)
        ensures
            match r {
                Ok(pid) => spec_parse_playlist_input(input@) == Some(pid@),
                Err(e) => spec_parse_playlist_input(input@) is None && (e matches
                    ClientError::InvalidId(m) && m@ == input@),
            },
    {
        let chars = chars_of(input);
        let p1 = chars_of("https://open.spotify.com/playlist/");
        if prefix_matches(&chars, &p1) && id_run_holds(&chars, p1.len(), PLAYLIST_ID_LEN) {
            return Ok(PlaylistId(capture_id(input, &chars, p1.len())));
        }
        let p2 = chars_of("http://open.spotify.com/playlist/");
        if prefix_matches(&chars, &p2) && id_run_holds(&chars, p2.len(), PLAYLIST_ID_LEN) {
            return Ok(PlaylistId(capture_id(input, &chars, p2.len())));
        }
        let p3 = chars_of("spotify:playlist:");
        if prefix_matches(&chars, &p3) && id_run_holds(&chars, p3.len(), PLAYLIST_ID_LEN) {
            return Ok(PlaylistId(capture_id(input, &chars, p3.len())));
        }
        if id_run_holds(&chars, 0, PLAYLIST_ID_LEN) {
            return Ok(PlaylistId(capture_id(input, &chars, 0)));
        }
        Err(ClientError::InvalidId(input.to_owned()))
    }
}

impl TrackId {
    /// Render the track identifier in its canonical resource form.
    pub fn uri(&self) -> (r: String)
        ensures
            r@ == "spotify:track:"@ + self@,
    {
        let prefix = String::from_str("spotify:track:");
        prefix.concat(self.0.as_str())
    }
}

impl UserId {
    /// Render the user identifier in its canonical resource form.
    pub fn uri(&self) -> (r: String)
        ensures
            r@ == "spotify:user:"@ + self@,
    {
        let prefix = String::from_str("spotify:user:");
        prefix.concat(self.0.as_str())
    }
}

/// Copy the 22 identifier characters that begin at `start` out of `input`.
fn capture_id(input: &str, chars: &Vec<char>, start: usize) -> (r: String)
    requires
        chars@ == input@,
        id_run_at(input@, start as int, PLAYLIST_ID_LEN as int),
    ensures
        r@ == capture_at(input@, start as int),
{
    let n: usize = chars.len();
    proof {
        assert(start + PLAYLIST_ID_LEN <= n);
    }
    input.substring_char(start, start + PLAYLIST_ID_LEN).to_owned()
}

/// The characters of `s`, one vector element per character.
pub fn chars_of(s: &str) -> (r: Vec<char>)
    ensures
        r@ == s@,
{
    let n: usize = s.unicode_len();
    let mut r: Vec<char> = Vec::new();
    let mut i: usize = 0;
    while i < n
        invariant
            0 <= i <= n,
            n == s@.len(),
            r@ == s@.take(i as int),
        decreases n - i,
    {
        r.push(s.get_char(i));
        i = i + 1;
        proof {
            assert(r@ =~= s@.take(i as int));
        }
    }
    proof {
        assert(r@ =~= s@);
    }
    r
}

/// Whether `p` stands at the front of `s`.
pub fn prefix_matches(s: &Vec<char>, p: &Vec<char>) -> (r: bool)
    ensures
        r == p@.is_prefix_of(s@),
{
    if p.len() > s.len() {
        proof {
            assert(!p@.is_prefix_of(s@));
        }
        return false;
    }
    let mut i: usize = 0;
    while i < p.len()
        invariant
            0 <= i <= p@.len() <= s@.len(),
            forall|k: int| 0 <= k < i ==> s@[k] == p@[k],
        decreases p@.len() - i,
    {
        if s[i] != p[i] {
            proof {
                assert(!p@.is_prefix_of(s@));
            }
            return false;
        }
        i = i + 1;
    }
    proof {
        assert(p@ =~= s@.subrange(0, p@.len() as int));
    }
    true
}

/// Whether `count` identifier characters stand in `s` beginning at `start`.
pub fn id_run_holds(s: &Vec<char>, start: usize, count: usize) -> (r: bool)
    ensures
        r == id_run_at(s@, start as int, count as int),
{
    let n: usize = s.len();
    if count > n || start > n - count {
        proof {
            assert(!id_run_at(s@, start as int, count as int));
        }
        return false;
    }
    let mut i: usize = 0;
    while i < count
        invariant
            0 <= i <= count,
            n == s@.len(),
            start + count <= n,
            forall|k: int| start <= k < start + i ==> is_id_char(#[trigger] s@[k]),
        decreases count - i,
    {
        let c = s[start + i];
        if !(('a' <= c && c <= 'z') || ('A' <= c && c <= 'Z') || ('0' <= c && c <= '9')) {
            proof {
                assert(!is_id_char(s@[start + i as int]));
            }
            return false;
        }
        i = i + 1;
    }
    true
}

} // verus!

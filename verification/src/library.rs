//! Entries of the media library: playlists and tracks, and the
//! case-insensitive matching the search filter applies to them.

use vstd::prelude::*;

use crate::text::{contains_seq, lower_of, str_contains, to_lowercase};

verus! {

/// One playlist: its identity is the id, the name is case-preserving.
#[derive(Debug)]
pub struct PlaylistEntry {
    pub id: i32,
    pub name: String,
}

/// One track.  Its identity is the id; the duration is in whole
/// seconds.
#[derive(Debug)]
pub struct TrackEntry {
    pub id: i32,
    pub name: String,
    pub artist: String,
    pub album: String,
    pub duration: u32,
}

impl Clone for PlaylistEntry {
    fn clone(&self) -> (r: Self)
        ensures
            r == *self,
    {
        PlaylistEntry { id: self.id, name: self.name.clone() }
    }
}

impl Clone for TrackEntry {
    fn clone(&self) -> (r: Self)
        ensures
            r == *self,
    {
        TrackEntry {
            id: self.id,
            name: self.name.clone(),
            artist: self.artist.clone(),
            album: self.album.clone(),
            duration: self.duration,
        }
    }
}

/// Copy a playlist list element by element.
pub fn clone_playlists(v: &Vec<PlaylistEntry>) -> (r: Vec<PlaylistEntry>)
    ensures
        r@ == v@,
{
    let mut r: Vec<PlaylistEntry> = Vec::new();
    let mut i: usize = 0;
    while i < v.len()
        invariant
            i <= v.len(),
            r@ == v@.take(i as int),
        decreases v.len() - i,
    {
        r.push(v[i].clone());
        proof {
            assert(v@.take(i + 1) =~= v@.take(i as int).push(v@[i as int]));
        }
        i = i + 1;
    }
    proof {
        assert(v@.take(v@.len() as int) =~= v@);
    }
    r
}

/// Copy a track list element by element.
pub fn clone_tracks(v: &Vec<TrackEntry>) -> (r: Vec<TrackEntry>)
    ensures
        r@ == v@,
{
    let mut r: Vec<TrackEntry> = Vec::new();
    let mut i: usize = 0;
    while i < v.len()
        invariant
            i <= v.len(),
            r@ == v@.take(i as int),
        decreases v.len() - i,
    {
        r.push(v[i].clone());
        proof {
            assert(v@.take(i + 1) =~= v@.take(i as int).push(v@[i as int]));
        }
        i = i + 1;
    }
    proof {
        assert(v@.take(v@.len() as int) =~= v@);
    }
    r
}

/// A playlist matches a (lowercased) query when its lowercased name
/// contains the query as a substring.
pub open spec fn playlist_matches(p: PlaylistEntry, query: Seq<char>) -> bool {
    contains_seq(lower_of(p.name@), query)
}

/// A track matches a (lowercased) query when its lowercased name or
/// artist contains the query as a substring.
pub open spec fn track_matches(t: TrackEntry, query: Seq<char>) -> bool {
    contains_seq(lower_of(t.name@), query) || contains_seq(lower_of(t.artist@), query)
}

/// The predicate the filter applies to playlists under a lowercased
/// query.
pub open spec fn playlist_pred(query: Seq<char>) -> spec_fn(PlaylistEntry) -> bool {
    |p: PlaylistEntry| playlist_matches(p, query)
}

/// The predicate the filter applies to tracks under a lowercased
/// query.
pub open spec fn track_pred(query: Seq<char>) -> spec_fn(TrackEntry) -> bool {
    |t: TrackEntry| track_matches(t, query)
}

/// Keep the playlists that match the lowercased query, in their
/// original order.
pub fn filter_playlists(v: &Vec<PlaylistEntry>, query_lowered: &str) -> (r: Vec<PlaylistEntry>)
    ensures
        r@ == v@.filter(playlist_pred(query_lowered@)),
{
    let mut r: Vec<PlaylistEntry> = Vec::new();
    let mut i: usize = 0;
    while i < v.len()
        invariant
            i <= v.len(),
            r@ == v@.take(i as int).filter(playlist_pred(query_lowered@)),
        decreases v.len() - i,
    {
        if playlist_entry_matches(&v[i], query_lowered) {
            r.push(v[i].clone());
        }
        proof {
            assert(v@.take(i + 1) =~= v@.take(i as int).push(v@[i as int]));
            v@.take(i as int).lemma_filter_push(v@[i as int], playlist_pred(query_lowered@));
        }
        i = i + 1;
    }
    proof {
        assert(v@.take(v@.len() as int) =~= v@);
    }
    r
}

/// Keep the tracks that match the lowercased query, in their original
/// order.
pub fn filter_tracks(v: &Vec<TrackEntry>, query_lowered: &str) -> (r: Vec<TrackEntry>)
    ensures
        r@ == v@.filter(track_pred(query_lowered@)),
{
    let mut r: Vec<TrackEntry> = Vec::new();
    let mut i: usize = 0;
    while i < v.len()
        invariant
            i <= v.len(),
            r@ == v@.take(i as int).filter(track_pred(query_lowered@)),
        decreases v.len() - i,
    {
        if track_entry_matches(&v[i], query_lowered) {
            r.push(v[i].clone());
        }
        proof {
            assert(v@.take(i + 1) =~= v@.take(i as int).push(v@[i as int]));
            v@.take(i as int).lemma_filter_push(v@[i as int], track_pred(query_lowered@));
        }
        i = i + 1;
    }
    proof {
        assert(v@.take(v@.len() as int) =~= v@);
    }
    r
}

/// Does this playlist match the lowercased query?
pub fn playlist_entry_matches(p: &PlaylistEntry, query: &str) -> (r: bool)
    ensures
        r == playlist_matches(*p, query@),
{
    let lowered = to_lowercase(p.name.as_str());
    str_contains(lowered.as_str(), query)
}

/// Does this track match the lowercased query?
pub fn track_entry_matches(t: &TrackEntry, query: &str) -> (r: bool)
    ensures
        r == track_matches(*t, query@),
{
    let name_l = to_lowercase(t.name.as_str());
    if str_contains(name_l.as_str(), query) {
        true
    } else {
        let artist_l = to_lowercase(t.artist.as_str());
        str_contains(artist_l.as_str(), query)
    }
}

} // verus!

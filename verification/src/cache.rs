//! Cache of playlist track lists, keyed by playlist name.
//!
//! Populated lazily when a fetched track list arrives, consulted
//! before a new fetch is issued for the same playlist.  It is
//! deliberately unbounded: nothing is ever evicted.  A later insert
//! under the same name shadows the earlier one.

use vstd::prelude::*;

use crate::library::TrackEntry;

verus! {

/// The mapping an association list denotes: later pairs win.
pub closed spec fn assoc_map(entries: Seq<(String, Vec<TrackEntry>)>) -> Map<
    Seq<char>,
    Seq<TrackEntry>,
>
    decreases entries.len(),
{
    if entries.len() == 0 {
        Map::empty()
    } else {
        assoc_map(entries.drop_last()).insert(entries.last().0@, entries.last().1@)
    }
}

proof fn lemma_assoc_map_domain(entries: Seq<(String, Vec<TrackEntry>)>, k: Seq<char>)
    ensures
        assoc_map(entries).contains_key(k) <==> exists|i: int|
            0 <= i < entries.len() && entries[i].0@ == k,
    decreases entries.len(),
{
    if entries.len() > 0 {
        lemma_assoc_map_domain(entries.drop_last(), k);
        if assoc_map(entries).contains_key(k) {
            if entries.last().0@ == k {
                assert(entries[entries.len() - 1].0@ == k);
            } else {
                let i = choose|i: int|
                    0 <= i < entries.drop_last().len() && entries.drop_last()[i].0@ == k;
                assert(entries[i].0@ == k);
            }
        }
        if exists|i: int| 0 <= i < entries.len() && entries[i].0@ == k {
            let i = choose|i: int| 0 <= i < entries.len() && entries[i].0@ == k;
            if i < entries.len() - 1 {
                assert(entries.drop_last()[i].0@ == k);
            }
        }
    }
}

proof fn lemma_assoc_map_get(entries: Seq<(String, Vec<TrackEntry>)>, k: Seq<char>, i: int)
    requires
        0 <= i < entries.len(),
        entries[i].0@ == k,
        forall|j: int| i < j < entries.len() ==> entries[j].0@ != k,
    ensures
        assoc_map(entries).contains_key(k),
        assoc_map(entries)[k] == entries[i].1@,
    decreases entries.len(),
{
    if i == entries.len() - 1 {
    } else {
        assert(entries.drop_last()[i].0@ == k);
        lemma_assoc_map_get(entries.drop_last(), k, i);
    }
}

/// Mapping from playlist name to the track list last fetched for it.
pub struct TrackCache {
    entries: Vec<(String, Vec<TrackEntry>)>,
}

impl View for TrackCache {
    type V = Map<Seq<char>, Seq<TrackEntry>>;

    closed spec fn view(&self) -> Map<Seq<char>, Seq<TrackEntry>> {
        assoc_map(self.entries@)
    }
}

impl TrackCache {
    /// An empty cache.
    pub fn new() -> (r: Self)
        ensures
            r@ == Map::<Seq<char>, Seq<TrackEntry>>::empty(),
    {
        TrackCache { entries: Vec::new() }
    }

    /// Is a track list cached under this playlist name?
    pub fn contains_key(&self, name: &String) -> (r: bool)
        ensures
            r == self@.contains_key(name@),
    {
        proof {
            lemma_assoc_map_domain(self.entries@, name@);
        }
        let mut i: usize = 0;
        while i < self.entries.len()
            invariant
                i <= self.entries@.len(),
                forall|j: int| 0 <= j < i ==> self.entries@[j].0@ != name@,
                self@.contains_key(name@) <==> exists|j: int|
                    0 <= j < self.entries@.len() && self.entries@[j].0@ == name@,
            decreases self.entries@.len() - i,
        {
            if self.entries[i].0 == *name {
                return true;
            }
            i = i + 1;
        }
        false
    }

    /// The track list cached under this playlist name, if any: the one
    /// most recently inserted.
    pub fn get(&self, name: &String) -> (r: Option<&Vec<TrackEntry>>)
        ensures
            match r {
                Some(v) => self@.contains_key(name@) && v@ == self@[name@],
                None => !self@.contains_key(name@),
            },
    {
        proof {
            lemma_assoc_map_domain(self.entries@, name@);
        }
        let mut i: usize = self.entries.len();
        while i > 0
            invariant
                i <= self.entries@.len(),
                forall|j: int| i <= j < self.entries@.len() ==> self.entries@[j].0@ != name@,
                self@.contains_key(name@) <==> exists|j: int|
                    0 <= j < self.entries@.len() && self.entries@[j].0@ == name@,
            decreases i,
        {
            i = i - 1;
            if self.entries[i].0 == *name {
                proof {
                    lemma_assoc_map_get(self.entries@, name@, i as int);
                }
                return Some(&self.entries[i].1);
            }
        }
        None
    }

    /// Cache a track list under a playlist name, shadowing any earlier
    /// list held for it.
    pub fn insert(&mut self, name: String, tracks: Vec<TrackEntry>)
        ensures
            final(self)@ == old(self)@.insert(name@, tracks@),
    {
        let ghost pre = self.entries@;
        self.entries.push((name, tracks));
        proof {
            assert(self.entries@.drop_last() =~= pre);
        }
    }
}

} // verus!

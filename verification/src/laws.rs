//! The properties the state machine guarantees, stated and proved
//! over the transition functions.

use vstd::prelude::*;

use crate::app::{
    jump_back_index, jump_forward_index, next_index, prev_index, reset_sel, sel_ok, AppData,
    LibraryView,
};
use crate::events::{ActionData, EventData};

verus! {

/// For a non-empty list with a valid selection, one step in either
/// direction always lands in range; moving next from the last row
/// wraps to the first, and moving previous from the first row wraps
/// to the last.
pub proof fn lemma_selection_wraps(sel: Option<int>, len: int)
    requires
        len > 0,
        sel_ok(len, sel),
    ensures
        0 <= next_index(sel, len) < len,
        0 <= prev_index(sel, len) < len,
        sel == Some(len - 1) ==> next_index(sel, len) == 0,
        sel == Some(0int) ==> prev_index(sel, len) == len - 1,
{
}

/// On a non-empty list with nothing selected, movement starts from
/// the first row: one step down lands on the second row (or stays on
/// the only one), one step up wraps to the last row, a jump of `n`
/// rows down lands on row `n` clamped to the last, and a jump up
/// stays on the first.
pub proof fn lemma_navigation_from_unselected(n: int, len: int)
    requires
        len > 0,
        n >= 0,
    ensures
        next_index(None, len) == if len == 1 {
            0int
        } else {
            1int
        },
        prev_index(None, len) == len - 1,
        jump_forward_index(None, n, len) == if n < len {
            n
        } else {
            len - 1
        },
        jump_back_index(None, n) == 0,
{
}

/// Every selection movement preserves well-formedness, so any
/// sequence of next/previous operations keeps each selection in
/// range.
pub proof fn lemma_navigation_preserves_wf(s: AppData, n: int)
    requires
        s.wf(),
        n >= 0,
    ensures
        s.select_next_t().wf(),
        s.select_previous_t().wf(),
        s.select_next_by_t(n).wf(),
        s.select_previous_by_t(n).wf(),
{
}

/// Entering search and cancelling it immediately (no query typed)
/// restores exactly the original list contents and order, and the
/// selection comes back as the first row iff the list is non-empty.
pub proof fn lemma_enter_then_cancel(s: AppData)
    ensures
        ({
            let s2 = s.enter_search_t().cancel_search_t();
            &&& s.on_playlists() ==> s2.playlists == s.playlists && s2.playlist_state == reset_sel(
                s.playlists.len() as int,
            )
            &&& !s.on_playlists() ==> s2.tracks == s.tracks && s2.track_state == reset_sel(
                s.tracks.len() as int,
            )
        }),
{
}

/// Applying the filter for any query and then applying it again for
/// the empty query yields the full pre-filter snapshot.
pub proof fn lemma_filter_then_clear_restores(s: AppData, q: Seq<char>)
    ensures
        ({
            let s1 = AppData { search_query: q, ..s }.apply_search_filter_t();
            let s2 = AppData { search_query: Seq::empty(), ..s1 }.apply_search_filter_t();
            &&& s.on_playlists() ==> s2.playlists == s.pre_search_playlists
            &&& !s.on_playlists() ==> s2.tracks == s.pre_search_tracks
        }),
{
}

/// Drilling into a selected playlist never starts a background fetch
/// when its track list is cached — the view switches synchronously —
/// and always starts one when it is not.
pub proof fn lemma_drill_fetches_iff_uncached(s: AppData, i: int)
    requires
        s.view == LibraryView::Playlists,
        s.playlist_state == Some(i),
        0 <= i < s.playlists.len(),
    ensures
        ({
            let (s2, a) = s.drill_t();
            let name = s.playlists[i].name@;
            &&& s.track_cache.contains_key(name) ==> a is None && s2.view == LibraryView::Tracks
                && s2.tracks == s.track_cache[name] && s2.loading == s.loading
            &&& !s.track_cache.contains_key(name) ==> a == Some(ActionData::FetchTracks(name))
                && s2.loading && s2.view == s.view && s2.tracks == s.tracks
        }),
{
}

/// An artwork result whose track key no longer matches the current
/// one changes nothing at all — in particular not the stored image.
pub proof fn lemma_stale_artwork_discarded(
    s: AppData,
    track_key: Seq<char>,
    img: Option<image::DynamicImage>,
)
    requires
        track_key != s.artwork_track,
    ensures
        s.handle_artwork_loaded_t(track_key, img) == s,
{
}

/// Every event preserves the selection invariant: between
/// event-processing steps each list's selection is a row in range iff
/// the list is non-empty.
pub proof fn lemma_events_preserve_wf(s: AppData, e: EventData)
    requires
        s.wf(),
    ensures
        s.handle_event_t(e).0.wf(),
{
}

} // verus!

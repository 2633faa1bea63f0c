//! The application state and the pure transitions that events apply
//! to it: selection movement, the search lifecycle, and list loading.
//!
//! Every transition is specified as a function from the abstract state
//! to the abstract state, and each executable method is proved to
//! implement its transition exactly.  All mutation happens through
//! these methods, one event at a time, so no intermediate state is
//! ever observable.

use vstd::prelude::*;

use crate::cache::TrackCache;
use crate::library::{
    clone_playlists, clone_tracks, filter_playlists, filter_tracks, playlist_pred, track_pred,
    PlaylistEntry, TrackEntry,
};
use crate::player::PlayerStatus;
use crate::text::{lower_of, to_lowercase};

verus! {

/// Which panel receives panel-level keys.
#[derive(Debug, Clone, Copy, PartialEq, Eq, Structural)]
pub enum Panel {
    NowPlaying,
    Library,
}

/// Which list the library panel shows.  Exactly one view is active at
/// a time and it decides which list receives navigation keys:
/// `Playlists` navigates the playlist list, the other two navigate
/// the track list.
#[derive(Debug, Clone, Copy, PartialEq, Eq, Structural)]
pub enum LibraryView {
    Playlists,
    Tracks,
    SearchResults,
}

/// Cursor of one list: the selected row, if the list has one.
#[derive(Debug, Clone, Copy)]
pub struct ListSelection {
    pub selected: Option<usize>,
}

impl Default for ListSelection {
    /// No row selected.
    fn default() -> (r: Self)
        ensures
            r.selected is None,
    {
        ListSelection { selected: None }
    }
}

/// A selection as the specifications see it.
pub open spec fn sel_view(sel: Option<usize>) -> Option<int> {
    match sel {
        Some(i) => Some(i as int),
        None => None,
    }
}

/// The row a movement starts from: the selected row, or the first row
/// when nothing is selected.
pub open spec fn start_row(sel: Option<int>) -> int {
    match sel {
        Some(i) => i,
        None => 0,
    }
}

/// Where one step down lands: the wrapped successor of the start row.
pub open spec fn next_index(sel: Option<int>, len: int) -> int {
    wrap_next(start_row(sel), len)
}

/// Where one step up lands: the wrapped predecessor of the start row.
pub open spec fn prev_index(sel: Option<int>, len: int) -> int {
    wrap_prev(start_row(sel), len)
}

/// Where a jump of `n` rows down from the start row lands, clamped to
/// the last row.
pub open spec fn jump_forward_index(sel: Option<int>, n: int, len: int) -> int {
    jump_forward(start_row(sel), n, len)
}

/// Where a jump of `n` rows up from the start row lands, clamped to
/// the first row.
pub open spec fn jump_back_index(sel: Option<int>, n: int) -> int {
    jump_back(start_row(sel), n)
}

/// A selection is valid for a list: some in-range row iff the list is
/// non-empty.
pub open spec fn sel_ok(len: int, sel: Option<int>) -> bool {
    if len == 0 {
        sel is None
    } else {
        sel matches Some(i) && 0 <= i < len
    }
}

/// The selection after a list was (re)built: its first row, if any.
pub open spec fn reset_sel(len: int) -> Option<int> {
    if len == 0 {
        None
    } else {
        Some(0)
    }
}

/// One step down, wrapping past the end.
pub open spec fn wrap_next(i: int, len: int) -> int {
    if i + 1 >= len {
        0
    } else {
        i + 1
    }
}

/// One step up, wrapping past the start.
pub open spec fn wrap_prev(i: int, len: int) -> int {
    if i == 0 {
        len - 1
    } else {
        i - 1
    }
}

/// A jump of `n` rows down, clamped to the last row.
pub open spec fn jump_forward(i: int, n: int, len: int) -> int {
    if i + n >= len {
        len - 1
    } else {
        i + n
    }
}

/// A jump of `n` rows up, clamped to the first row.
pub open spec fn jump_back(i: int, n: int) -> int {
    if i - n <= 0 {
        0
    } else {
        i - n
    }
}

/// The application state as the specifications see it.
pub ghost struct AppData {
    pub should_quit: bool,
    pub player: PlayerStatus,
    pub active_panel: Panel,
    pub playlists: Seq<PlaylistEntry>,
    pub playlist_state: Option<int>,
    pub tracks: Seq<TrackEntry>,
    pub track_state: Option<int>,
    pub view: LibraryView,
    pub search_mode: bool,
    pub search_query: Seq<char>,
    pub loading: bool,
    pub track_cache: Map<Seq<char>, Seq<TrackEntry>>,
    pub pre_search_playlists: Seq<PlaylistEntry>,
    pub pre_search_tracks: Seq<TrackEntry>,
    pub artwork: Option<image::DynamicImage>,
    pub artwork_track: Seq<char>,
}

impl AppData {
    /// The resting-state invariant: each list's selection is valid.
    pub open spec fn wf(self) -> bool {
        &&& sel_ok(self.playlists.len() as int, self.playlist_state)
        &&& sel_ok(self.tracks.len() as int, self.track_state)
    }

    /// Navigation keys currently drive the playlist list (otherwise
    /// the track list).
    pub open spec fn on_playlists(self) -> bool {
        self.view == LibraryView::Playlists
    }

    /// Selection moved one row down in the active list, wrapping.
    pub open spec fn select_next_t(self) -> AppData {
        if self.on_playlists() {
            if self.playlists.len() == 0 {
                self
            } else {
                AppData {
                    playlist_state: Some(
                        next_index(self.playlist_state, self.playlists.len() as int),
                    ),
                    ..self
                }
            }
        } else {
            if self.tracks.len() == 0 {
                self
            } else {
                AppData {
                    track_state: Some(next_index(self.track_state, self.tracks.len() as int)),
                    ..self
                }
            }
        }
    }

    /// Selection moved one row up in the active list, wrapping.
    pub open spec fn select_previous_t(self) -> AppData {
        if self.on_playlists() {
            if self.playlists.len() == 0 {
                self
            } else {
                AppData {
                    playlist_state: Some(
                        prev_index(self.playlist_state, self.playlists.len() as int),
                    ),
                    ..self
                }
            }
        } else {
            if self.tracks.len() == 0 {
                self
            } else {
                AppData {
                    track_state: Some(prev_index(self.track_state, self.tracks.len() as int)),
                    ..self
                }
            }
        }
    }

    /// Selection jumped `n` rows down in the active list, clamped.
    pub open spec fn select_next_by_t(self, n: int) -> AppData {
        if self.on_playlists() {
            if self.playlists.len() == 0 {
                self
            } else {
                AppData {
                    playlist_state: Some(
                        jump_forward_index(self.playlist_state, n, self.playlists.len() as int),
                    ),
                    ..self
                }
            }
        } else {
            if self.tracks.len() == 0 {
                self
            } else {
                AppData {
                    track_state: Some(
                        jump_forward_index(self.track_state, n, self.tracks.len() as int),
                    ),
                    ..self
                }
            }
        }
    }

    /// Selection jumped `n` rows up in the active list, clamped.
    pub open spec fn select_previous_by_t(self, n: int) -> AppData {
        if self.on_playlists() {
            if self.playlists.len() == 0 {
                self
            } else {
                AppData {
                    playlist_state: Some(jump_back_index(self.playlist_state, n)),
                    ..self
                }
            }
        } else {
            if self.tracks.len() == 0 {
                self
            } else {
                AppData { track_state: Some(jump_back_index(self.track_state, n)), ..self }
            }
        }
    }

    /// The player snapshot replaced wholesale.
    pub open spec fn update_player_status_t(self, status: PlayerStatus) -> AppData {
        AppData { player: status, ..self }
    }

    /// The startup playlist list installed, cursor on its first row.
    pub open spec fn set_playlists_t(self, playlists: Seq<PlaylistEntry>) -> AppData {
        AppData {
            playlists: playlists,
            playlist_state: reset_sel(playlists.len() as int),
            ..self
        }
    }

    /// Search entered: the active list is snapshot, the query cleared.
    pub open spec fn enter_search_t(self) -> AppData {
        if self.on_playlists() {
            AppData {
                search_mode: true,
                search_query: Seq::empty(),
                pre_search_playlists: self.playlists,
                ..self
            }
        } else {
            AppData {
                search_mode: true,
                search_query: Seq::empty(),
                pre_search_tracks: self.tracks,
                ..self
            }
        }
    }

    /// The query applied as a live filter: the active list becomes the
    /// matching subsequence of the snapshot (all of it when the query
    /// is empty), cursor on the first row.  Matching is
    /// case-insensitive substring matching on the playlist name, or on
    /// the track name or artist.
    pub open spec fn apply_search_filter_t(self) -> AppData {
        let q = lower_of(self.search_query);
        if self.on_playlists() {
            let pls = if self.search_query.len() == 0 {
                self.pre_search_playlists
            } else {
                self.pre_search_playlists.filter(playlist_pred(q))
            };
            AppData { playlists: pls, playlist_state: reset_sel(pls.len() as int), ..self }
        } else {
            let trs = if self.search_query.len() == 0 {
                self.pre_search_tracks
            } else {
                self.pre_search_tracks.filter(track_pred(q))
            };
            AppData { tracks: trs, track_state: reset_sel(trs.len() as int), ..self }
        }
    }

    /// Search confirmed: the filtered list and its cursor are kept,
    /// the snapshot is discarded.
    pub open spec fn confirm_search_t(self) -> AppData {
        if self.on_playlists() {
            AppData { search_mode: false, pre_search_playlists: Seq::empty(), ..self }
        } else {
            AppData { search_mode: false, pre_search_tracks: Seq::empty(), ..self }
        }
    }

    /// Search cancelled: the snapshot is restored verbatim as the
    /// active list, cursor on its first row, query and snapshot
    /// cleared.
    pub open spec fn cancel_search_t(self) -> AppData {
        if self.on_playlists() {
            AppData {
                search_mode: false,
                search_query: Seq::empty(),
                playlists: self.pre_search_playlists,
                playlist_state: reset_sel(self.pre_search_playlists.len() as int),
                pre_search_playlists: Seq::empty(),
                ..self
            }
        } else {
            AppData {
                search_mode: false,
                search_query: Seq::empty(),
                tracks: self.pre_search_tracks,
                track_state: reset_sel(self.pre_search_tracks.len() as int),
                pre_search_tracks: Seq::empty(),
                ..self
            }
        }
    }
}

/// What a freshly created application state holds.
pub open spec fn is_initial(s: AppData) -> bool {
    &&& s.should_quit == false
    &&& crate::player::is_default_status(s.player)
    &&& s.active_panel == Panel::Library
    &&& s.playlists == Seq::<PlaylistEntry>::empty()
    &&& s.playlist_state is None
    &&& s.tracks == Seq::<TrackEntry>::empty()
    &&& s.track_state is None
    &&& s.view == LibraryView::Playlists
    &&& s.search_mode == false
    &&& s.search_query == Seq::<char>::empty()
    &&& s.loading == false
    &&& s.track_cache == Map::<Seq<char>, Seq<TrackEntry>>::empty()
    &&& s.pre_search_playlists == Seq::<PlaylistEntry>::empty()
    &&& s.pre_search_tracks == Seq::<TrackEntry>::empty()
    &&& s.artwork is None
    &&& s.artwork_track == Seq::<char>::empty()
}

/// All mutable application state.  It is owned and mutated by the
/// consumer loop alone; producers only ever send self-contained event
/// values.
pub struct App {
    pub should_quit: bool,
    pub player: PlayerStatus,
    pub active_panel: Panel,
    pub playlists: Vec<PlaylistEntry>,
    pub playlist_state: ListSelection,
    pub tracks: Vec<TrackEntry>,
    pub track_state: ListSelection,
    pub view: LibraryView,
    pub search_mode: bool,
    pub search_query: String,
    pub loading: bool,
    pub track_cache: TrackCache,
    pub pre_search_playlists: Vec<PlaylistEntry>,
    pub pre_search_tracks: Vec<TrackEntry>,
    pub artwork: Option<image::DynamicImage>,
    pub artwork_track: String,
}

impl View for App {
    type V = AppData;

    open spec fn view(&self) -> AppData {
        AppData {
            should_quit: self.should_quit,
            player: self.player,
            active_panel: self.active_panel,
            playlists: self.playlists@,
            playlist_state: sel_view(self.playlist_state.selected),
            tracks: self.tracks@,
            track_state: sel_view(self.track_state.selected),
            view: self.view,
            search_mode: self.search_mode,
            search_query: self.search_query@,
            loading: self.loading,
            track_cache: self.track_cache@,
            pre_search_playlists: self.pre_search_playlists@,
            pre_search_tracks: self.pre_search_tracks@,
            artwork: self.artwork,
            artwork_track: self.artwork_track@,
        }
    }
}

impl Default for App {
    /// The state the process starts in, before the startup playlist
    /// load.
    fn default() -> (r: Self)
        ensures
            is_initial(r@),
    {
        App {
            should_quit: false,
            player: PlayerStatus::default(),
            active_panel: Panel::Library,
            playlists: Vec::new(),
            playlist_state: ListSelection::default(),
            tracks: Vec::new(),
            track_state: ListSelection::default(),
            view: LibraryView::Playlists,
            search_mode: false,
            search_query: String::new(),
            loading: false,
            track_cache: TrackCache::new(),
            pre_search_playlists: Vec::new(),
            pre_search_tracks: Vec::new(),
            artwork: None,
            artwork_track: String::new(),
        }
    }
}

impl App {
    /// Replace the player snapshot.
    pub fn update_player_status(&mut self, status: PlayerStatus)
        ensures
            final(self)@ == old(self)@.update_player_status_t(status),
    {
        self.player = status;
    }

    /// Install the startup playlist list and select its first row.
    pub fn set_playlists(&mut self, playlists: Vec<PlaylistEntry>)
        ensures
            final(self)@ == old(self)@.set_playlists_t(playlists@),
    {
        self.playlists = playlists;
        self.playlist_state.selected = if self.playlists.len() == 0 {
            None
        } else {
            Some(0)
        };
    }

    /// Move selection down by 1 in the current list, wrapping.
    pub fn select_next(&mut self)
        ensures
            final(self)@ == old(self)@.select_next_t(),
    {
        match self.view {
            LibraryView::Playlists => {
                let len = self.playlists.len();
                if len == 0 {
                    return ;
                }
                let start = match self.playlist_state.selected {
                    Some(i) => i,
                    None => 0,
                };
                let i = if start >= len - 1 {
                    0
                } else {
                    start + 1
                };
                self.playlist_state.selected = Some(i);
            },
            _ => {
                let len = self.tracks.len();
                if len == 0 {
                    return ;
                }
                let start = match self.track_state.selected {
                    Some(i) => i,
                    None => 0,
                };
                let i = if start >= len - 1 {
                    0
                } else {
                    start + 1
                };
                self.track_state.selected = Some(i);
            },
        }
    }

    /// Move selection up by 1 in the current list, wrapping.
    pub fn select_previous(&mut self)
        ensures
            final(self)@ == old(self)@.select_previous_t(),
    {
        match self.view {
            LibraryView::Playlists => {
                let len = self.playlists.len();
                if len == 0 {
                    return ;
                }
                let start = match self.playlist_state.selected {
                    Some(i) => i,
                    None => 0,
                };
                let i = if start == 0 {
                    len - 1
                } else {
                    start - 1
                };
                self.playlist_state.selected = Some(i);
            },
            _ => {
                let len = self.tracks.len();
                if len == 0 {
                    return ;
                }
                let start = match self.track_state.selected {
                    Some(i) => i,
                    None => 0,
                };
                let i = if start == 0 {
                    len - 1
                } else {
                    start - 1
                };
                self.track_state.selected = Some(i);
            },
        }
    }

    /// Move selection down by `n` in the current list, clamped to the
    /// last row.
    pub fn select_next_by(&mut self, n: usize)
        ensures
            final(self)@ == old(self)@.select_next_by_t(n as int),
    {
        match self.view {
            LibraryView::Playlists => {
                let len = self.playlists.len();
                if len == 0 {
                    return ;
                }
                let start = match self.playlist_state.selected {
                    Some(i) => i,
                    None => 0,
                };
                let i = if start >= len || n >= len - start {
                    len - 1
                } else {
                    start + n
                };
                self.playlist_state.selected = Some(i);
            },
            _ => {
                let len = self.tracks.len();
                if len == 0 {
                    return ;
                }
                let start = match self.track_state.selected {
                    Some(i) => i,
                    None => 0,
                };
                let i = if start >= len || n >= len - start {
                    len - 1
                } else {
                    start + n
                };
                self.track_state.selected = Some(i);
            },
        }
    }

    /// Move selection up by `n` in the current list, clamped to the
    /// first row.
    pub fn select_previous_by(&mut self, n: usize)
        ensures
            final(self)@ == old(self)@.select_previous_by_t(n as int),
    {
        match self.view {
            LibraryView::Playlists => {
                let len = self.playlists.len();
                if len == 0 {
                    return ;
                }
                let start = match self.playlist_state.selected {
                    Some(i) => i,
                    None => 0,
                };
                let i = if start <= n {
                    0
                } else {
                    start - n
                };
                self.playlist_state.selected = Some(i);
            },
            _ => {
                let len = self.tracks.len();
                if len == 0 {
                    return ;
                }
                let start = match self.track_state.selected {
                    Some(i) => i,
                    None => 0,
                };
                let i = if start <= n {
                    0
                } else {
                    start - n
                };
                self.track_state.selected = Some(i);
            },
        }
    }

    /// Enter search mode: snapshot the current list and clear the
    /// query.
    pub fn enter_search(&mut self)
        ensures
            final(self)@ == old(self)@.enter_search_t(),
    {
        self.search_mode = true;
        self.search_query = String::new();
        match self.view {
            LibraryView::Playlists => {
                self.pre_search_playlists = clone_playlists(&self.playlists);
            },
            _ => {
                self.pre_search_tracks = clone_tracks(&self.tracks);
            },
        }
    }

    /// Apply the current query as a live filter over the snapshot.
    pub fn apply_search_filter(&mut self)
        ensures
            final(self)@ == old(self)@.apply_search_filter_t(),
    {
        match self.view {
            LibraryView::Playlists => {
                let new_list = if self.search_query.as_str().is_empty() {
                    clone_playlists(&self.pre_search_playlists)
                } else {
                    let lowered = to_lowercase(self.search_query.as_str());
                    filter_playlists(&self.pre_search_playlists, lowered.as_str())
                };
                self.playlists = new_list;
                self.playlist_state.selected = if self.playlists.len() == 0 {
                    None
                } else {
                    Some(0)
                };
            },
            _ => {
                let new_list = if self.search_query.as_str().is_empty() {
                    clone_tracks(&self.pre_search_tracks)
                } else {
                    let lowered = to_lowercase(self.search_query.as_str());
                    filter_tracks(&self.pre_search_tracks, lowered.as_str())
                };
                self.tracks = new_list;
                self.track_state.selected = if self.tracks.len() == 0 {
                    None
                } else {
                    Some(0)
                };
            },
        }
    }

    /// Exit search mode, keeping the filtered results.
    pub fn confirm_search(&mut self)
        ensures
            final(self)@ == old(self)@.confirm_search_t(),
    {
        self.search_mode = false;
        match self.view {
            LibraryView::Playlists => {
                self.pre_search_playlists = Vec::new();
            },
            _ => {
                self.pre_search_tracks = Vec::new();
            },
        }
    }

    /// Cancel search, restoring the full list from the snapshot.
    pub fn cancel_search(&mut self)
        ensures
            final(self)@ == old(self)@.cancel_search_t(),
    {
        self.search_mode = false;
        self.search_query = String::new();
        match self.view {
            LibraryView::Playlists => {
                let mut taken: Vec<PlaylistEntry> = Vec::new();
                core::mem::swap(&mut taken, &mut self.pre_search_playlists);
                self.playlists = taken;
                self.playlist_state.selected = if self.playlists.len() == 0 {
                    None
                } else {
                    Some(0)
                };
            },
            _ => {
                let mut taken: Vec<TrackEntry> = Vec::new();
                core::mem::swap(&mut taken, &mut self.pre_search_tracks);
                self.tracks = taken;
                self.track_state.selected = if self.tracks.len() == 0 {
                    None
                } else {
                    Some(0)
                };
            },
        }
    }

    /// The currently selected playlist, if any.
    pub fn selected_playlist(&self) -> (r: Option<&PlaylistEntry>)
        ensures
            match r {
                Some(p) => self@.playlist_state matches Some(i) && i < self@.playlists.len() && *p
                    == self@.playlists[i],
                None => !(self@.playlist_state matches Some(i) && i < self@.playlists.len()),
            },
    {
        match self.playlist_state.selected {
            Some(i) => if i < self.playlists.len() {
                Some(&self.playlists[i])
            } else {
                None
            },
            None => None,
        }
    }

    /// The currently selected track, if any.
    pub fn selected_track(&self) -> (r: Option<&TrackEntry>)
        ensures
            match r {
                Some(t) => self@.track_state matches Some(i) && i < self@.tracks.len() && *t
                    == self@.tracks[i],
                None => !(self@.track_state matches Some(i) && i < self@.tracks.len()),
            },
    {
        match self.track_state.selected {
            Some(i) => if i < self.tracks.len() {
                Some(&self.tracks[i])
            } else {
                None
            },
            None => None,
        }
    }
}

} // verus!

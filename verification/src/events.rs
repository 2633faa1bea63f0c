//! Events, actions, and the per-event transitions of the consumer
//! loop.
//!
//! Producers (the input watcher, the status poller, and the one-shot
//! background fetch tasks) send `AppEvent` values over one ordered
//! bus; the consumer loop applies each event to the state with
//! `App::handle_event` and performs the returned `Action`, if any,
//! by submitting it to the background runner.  Events are
//! self-contained: no ordering across producers is assumed.

use vstd::prelude::*;

use crate::app::{reset_sel, App, AppData, LibraryView, Panel};
use crate::library::{clone_tracks, TrackEntry};
use crate::player::{
    seek_back, seek_back_spec, seek_forward, seek_forward_spec, volume_down, volume_down_spec,
    volume_up, volume_up_spec, PlayerStatus,
};
use crate::text::{pop_char, push_char, str_eq};

verus! {

/// A key press, already reduced to what the state machine reacts to.
#[derive(Debug, Clone, Copy, PartialEq, Eq, Structural)]
pub enum Key {
    Char(char),
    Up,
    Down,
    Left,
    Right,
    Enter,
    Esc,
    Backspace,
    Tab,
    Other,
}

/// Everything the consumer loop can react to.  No other message type
/// crosses from a producer to the consumer.  The `TracksLoaded` cache
/// key is empty for non-cacheable loads such as search results.
pub enum AppEvent {
    Key(Key),
    Tick,
    PlayerUpdate(PlayerStatus),
    TracksLoaded(LibraryView, String, Vec<TrackEntry>),
    ArtworkLoaded(String, Option<image::DynamicImage>),
}

/// An event as the specifications see it.
pub ghost enum EventData {
    Key(Key),
    Tick,
    PlayerUpdate(PlayerStatus),
    TracksLoaded(LibraryView, Seq<char>, Seq<TrackEntry>),
    ArtworkLoaded(Seq<char>, Option<image::DynamicImage>),
}

impl View for AppEvent {
    type V = EventData;

    open spec fn view(&self) -> EventData {
        match self {
            AppEvent::Key(k) => EventData::Key(*k),
            AppEvent::Tick => EventData::Tick,
            AppEvent::PlayerUpdate(st) => EventData::PlayerUpdate(*st),
            AppEvent::TracksLoaded(v, key, ts) => EventData::TracksLoaded(*v, key@, ts@),
            AppEvent::ArtworkLoaded(key, img) => EventData::ArtworkLoaded(key@, *img),
        }
    }
}

/// The bounded set of things the consumer loop asks its collaborators
/// to do in response to one event: the one-shot background task kinds
/// first, then the fire-and-forget player commands.
pub enum Action {
    /// Fetch the tracks of the named playlist; its result comes back
    /// as `TracksLoaded(Tracks, name, tracks)`.
    FetchTracks(String),
    /// Search the library; the result comes back as
    /// `TracksLoaded(SearchResults, "", tracks)` and is never cached.
    SearchTracks(String),
    /// Fetch artwork for the named track by the named artist; the
    /// result comes back as `ArtworkLoaded(track, image_or_none)`.
    FetchArtwork(String, String),
    /// Start playback of the track with this id.
    PlayTrack(i32),
    TogglePlayback,
    NextTrack,
    PreviousTrack,
    /// Set the player volume to this value.
    SetVolume(i8),
    ToggleShuffle,
    CycleRepeat,
    /// Seek to this position, in whole seconds.
    SeekTo(u32),
}

/// An action as the specifications see it.
pub ghost enum ActionData {
    FetchTracks(Seq<char>),
    SearchTracks(Seq<char>),
    FetchArtwork(Seq<char>, Seq<char>),
    PlayTrack(int),
    TogglePlayback,
    NextTrack,
    PreviousTrack,
    SetVolume(int),
    ToggleShuffle,
    CycleRepeat,
    SeekTo(int),
}

impl View for Action {
    type V = ActionData;

    open spec fn view(&self) -> ActionData {
        match self {
            Action::FetchTracks(name) => ActionData::FetchTracks(name@),
            Action::SearchTracks(q) => ActionData::SearchTracks(q@),
            Action::FetchArtwork(track, artist) => ActionData::FetchArtwork(track@, artist@),
            Action::PlayTrack(id) => ActionData::PlayTrack(*id as int),
            Action::TogglePlayback => ActionData::TogglePlayback,
            Action::NextTrack => ActionData::NextTrack,
            Action::PreviousTrack => ActionData::PreviousTrack,
            Action::SetVolume(v) => ActionData::SetVolume(*v as int),
            Action::ToggleShuffle => ActionData::ToggleShuffle,
            Action::CycleRepeat => ActionData::CycleRepeat,
            Action::SeekTo(p) => ActionData::SeekTo(*p as int),
        }
    }
}

/// The action an event handler returned, as the specifications see
/// it.
pub open spec fn opt_action_view(a: Option<Action>) -> Option<ActionData> {
    match a {
        Some(x) => Some(x@),
        None => None,
    }
}

/// The keys that drive the library panel rather than the global
/// bindings.
pub open spec fn is_library_key(k: Key) -> bool {
    ||| k == Key::Char('j')
    ||| k == Key::Down
    ||| k == Key::Char('k')
    ||| k == Key::Up
    ||| k == Key::Right
    ||| k == Key::Enter
    ||| k == Key::Char('l')
    ||| k == Key::Left
    ||| k == Key::Esc
    ||| k == Key::Char('h')
    ||| k == Key::Char('/')
}

impl AppData {
    /// A key while the search prompt is open: enter confirms (and
    /// submits the query as a background search when it is
    /// non-empty), escape cancels, and editing keys change the query
    /// and re-apply the live filter.
    pub open spec fn handle_search_key_t(self, k: Key) -> (AppData, Option<ActionData>) {
        if k == Key::Enter {
            let s1 = self.confirm_search_t();
            if self.search_query.len() > 0 {
                (
                    AppData { loading: true, ..s1 },
                    Some(ActionData::SearchTracks(self.search_query)),
                )
            } else {
                (s1, None)
            }
        } else if k == Key::Esc {
            (self.cancel_search_t(), None)
        } else if k == Key::Backspace {
            let shorter = if self.search_query.len() > 0 {
                self.search_query.drop_last()
            } else {
                self.search_query
            };
            (AppData { search_query: shorter, ..self }.apply_search_filter_t(), None)
        } else if k is Char {
            (
                AppData {
                    search_query: self.search_query.push(k->Char_0),
                    ..self
                }.apply_search_filter_t(),
                None,
            )
        } else {
            (self, None)
        }
    }

    /// Drill into the selected row: on the playlist list, a cached
    /// playlist switches to its tracks synchronously and an uncached
    /// one starts a background fetch; on a track list, the selected
    /// track is played.
    pub open spec fn drill_t(self) -> (AppData, Option<ActionData>) {
        if self.view == LibraryView::Playlists {
            match self.playlist_state {
                Some(i) => {
                    if i < self.playlists.len() {
                        let name = self.playlists[i].name@;
                        if self.track_cache.contains_key(name) {
                            let cached = self.track_cache[name];
                            (
                                AppData {
                                    tracks: cached,
                                    track_state: reset_sel(cached.len() as int),
                                    view: LibraryView::Tracks,
                                    ..self
                                },
                                None,
                            )
                        } else {
                            (
                                AppData { loading: true, ..self },
                                Some(ActionData::FetchTracks(name)),
                            )
                        }
                    } else {
                        (self, None)
                    }
                },
                None => (self, None),
            }
        } else {
            match self.track_state {
                Some(i) => {
                    if i < self.tracks.len() {
                        (self, Some(ActionData::PlayTrack(self.tracks[i].id as int)))
                    } else {
                        (self, None)
                    }
                },
                None => (self, None),
            }
        }
    }

    /// Navigate back from a track list to the playlist list, clearing
    /// the track list and its cursor.
    pub open spec fn navigate_back_t(self) -> AppData {
        if self.view == LibraryView::Playlists {
            self
        } else {
            AppData {
                view: LibraryView::Playlists,
                tracks: Seq::empty(),
                track_state: None,
                ..self
            }
        }
    }

    /// A key aimed at the library panel.
    pub open spec fn handle_library_key_t(self, k: Key) -> (AppData, Option<ActionData>) {
        if k == Key::Char('j') || k == Key::Down {
            (self.select_next_t(), None)
        } else if k == Key::Char('k') || k == Key::Up {
            (self.select_previous_t(), None)
        } else if k == Key::Right || k == Key::Enter || k == Key::Char('l') {
            self.drill_t()
        } else if k == Key::Left || k == Key::Esc || k == Key::Char('h') {
            (self.navigate_back_t(), None)
        } else {
            (self.enter_search_t(), None)
        }
    }

    /// The panel the tab key switches to.
    pub open spec fn other_panel(self) -> Panel {
        match self.active_panel {
            Panel::NowPlaying => Panel::Library,
            Panel::Library => Panel::NowPlaying,
        }
    }

    /// A global key: quit, panel switches, and the fire-and-forget
    /// playback commands.
    pub open spec fn handle_global_key_t(self, k: Key) -> (AppData, Option<ActionData>) {
        if k == Key::Char('q') {
            (AppData { should_quit: true, ..self }, None)
        } else if k == Key::Char(' ') {
            (self, Some(ActionData::TogglePlayback))
        } else if k == Key::Char('n') {
            (self, Some(ActionData::NextTrack))
        } else if k == Key::Char('p') {
            (self, Some(ActionData::PreviousTrack))
        } else if k == Key::Char('+') || k == Key::Char('=') {
            (self, Some(ActionData::SetVolume(volume_up_spec(self.player.volume as int))))
        } else if k == Key::Char('-') {
            (self, Some(ActionData::SetVolume(volume_down_spec(self.player.volume as int))))
        } else if k == Key::Char('s') {
            (self, Some(ActionData::ToggleShuffle))
        } else if k == Key::Char('r') {
            (self, Some(ActionData::CycleRepeat))
        } else if k == Key::Left || k == Key::Char('<') || k == Key::Char(',') {
            (self, Some(ActionData::SeekTo(seek_back_spec(self.player.position as int))))
        } else if k == Key::Right || k == Key::Char('>') || k == Key::Char('.') {
            (
                self,
                Some(
                    ActionData::SeekTo(
                        seek_forward_spec(
                            self.player.position as int,
                            self.player.duration as int,
                        ),
                    ),
                ),
            )
        } else if k == Key::Char('1') {
            (AppData { active_panel: Panel::NowPlaying, ..self }, None)
        } else if k == Key::Char('2') {
            (AppData { active_panel: Panel::Library, ..self }, None)
        } else if k == Key::Tab {
            (AppData { active_panel: self.other_panel(), ..self }, None)
        } else {
            (self, None)
        }
    }

    /// One key press applied to the state: the search prompt
    /// intercepts every key while it is open; otherwise the library
    /// panel takes its navigation keys, and everything else falls to
    /// the global bindings.
    pub open spec fn handle_key_t(self, k: Key) -> (AppData, Option<ActionData>) {
        if self.search_mode {
            self.handle_search_key_t(k)
        } else if self.active_panel == Panel::Library && is_library_key(k) {
            self.handle_library_key_t(k)
        } else {
            self.handle_global_key_t(k)
        }
    }

    /// A fresh player snapshot applied to the state.  When the track
    /// name changed to a different, non-empty name, the stale artwork
    /// is cleared, the artwork key is re-pointed at the new track,
    /// and an artwork fetch is requested.
    pub open spec fn handle_player_update_t(self, status: PlayerStatus) -> (
        AppData,
        Option<ActionData>,
    ) {
        let changed = status.track_name@ != self.artwork_track && status.track_name@.len() > 0;
        if changed {
            (
                AppData {
                    player: status,
                    artwork: None,
                    artwork_track: status.track_name@,
                    ..self
                },
                Some(ActionData::FetchArtwork(status.track_name@, status.artist@)),
            )
        } else {
            (AppData { player: status, ..self }, None)
        }
    }

    /// A fetched track list applied to the state: loading ends, the
    /// list is cached under its key (when the key is non-empty — a
    /// fetch of that exact playlist is always safe to cache), and the
    /// list becomes the visible one in the target view.
    pub open spec fn handle_tracks_loaded_t(
        self,
        target_view: LibraryView,
        cache_key: Seq<char>,
        tracks: Seq<TrackEntry>,
    ) -> AppData {
        AppData {
            loading: false,
            track_cache: if cache_key.len() > 0 {
                self.track_cache.insert(cache_key, tracks)
            } else {
                self.track_cache
            },
            tracks: tracks,
            track_state: reset_sel(tracks.len() as int),
            view: target_view,
            ..self
        }
    }

    /// An asynchronously arrived artwork result applied to the state:
    /// it is taken only if its track key still matches the current
    /// one, and discarded silently otherwise.  This is the system's
    /// sole cancellation mechanism.
    pub open spec fn handle_artwork_loaded_t(
        self,
        track_key: Seq<char>,
        img: Option<image::DynamicImage>,
    ) -> AppData {
        if track_key == self.artwork_track {
            AppData { artwork: img, ..self }
        } else {
            self
        }
    }

    /// One event applied to the state, with the background work it
    /// triggers.
    pub open spec fn handle_event_t(self, e: EventData) -> (AppData, Option<ActionData>) {
        match e {
            EventData::Key(k) => self.handle_key_t(k),
            EventData::Tick => (self, None),
            EventData::PlayerUpdate(st) => self.handle_player_update_t(st),
            EventData::TracksLoaded(v, key, ts) => (self.handle_tracks_loaded_t(v, key, ts), None),
            EventData::ArtworkLoaded(key, img) => (self.handle_artwork_loaded_t(key, img), None),
        }
    }
}

impl App {
    /// Apply one key press; the caller performs the returned action.
    pub fn handle_key(&mut self, k: Key) -> (r: Option<Action>)
        ensures
            ({
                let (s2, a) = old(self)@.handle_key_t(k);
                final(self)@ == s2 && opt_action_view(r) == a
            }),
    {
        if self.search_mode {
            match k {
                Key::Enter => {
                    let query = self.search_query.clone();
                    self.confirm_search();
                    if !query.as_str().is_empty() {
                        self.loading = true;
                        Some(Action::SearchTracks(query))
                    } else {
                        None
                    }
                },
                Key::Esc => {
                    self.cancel_search();
                    None
                },
                Key::Backspace => {
                    let _popped = pop_char(&mut self.search_query);
                    self.apply_search_filter();
                    None
                },
                Key::Char(c) => {
                    push_char(&mut self.search_query, c);
                    self.apply_search_filter();
                    None
                },
                _ => None,
            }
        } else if self.active_panel == Panel::Library && Self::is_library_key_exec(k) {
            self.handle_library_key(k)
        } else {
            self.handle_global_key(k)
        }
    }

    /// Do the library-panel bindings claim this key?
    fn is_library_key_exec(k: Key) -> (r: bool)
        ensures
            r == is_library_key(k),
    {
        match k {
            Key::Char(c) => c == 'j' || c == 'k' || c == 'l' || c == 'h' || c == '/',
            Key::Down | Key::Up | Key::Right | Key::Enter | Key::Left | Key::Esc => true,
            _ => false,
        }
    }

    /// Apply a library-panel key.
    fn handle_library_key(&mut self, k: Key) -> (r: Option<Action>)
        ensures
            ({
                let (s2, a) = old(self)@.handle_library_key_t(k);
                final(self)@ == s2 && opt_action_view(r) == a
            }),
    {
        match k {
            Key::Char('j') | Key::Down => {
                self.select_next();
                None
            },
            Key::Char('k') | Key::Up => {
                self.select_previous();
                None
            },
            Key::Right | Key::Enter | Key::Char('l') => self.drill(),
            Key::Left | Key::Esc | Key::Char('h') => {
                self.navigate_back();
                None
            },
            _ => {
                self.enter_search();
                None
            },
        }
    }

    /// Drill into the selected row.
    fn drill(&mut self) -> (r: Option<Action>)
        ensures
            ({
                let (s2, a) = old(self)@.drill_t();
                final(self)@ == s2 && opt_action_view(r) == a
            }),
    {
        match self.view {
            LibraryView::Playlists => {
                let sel = self.playlist_state.selected;
                match sel {
                    Some(i) => {
                        if i < self.playlists.len() {
                            let name = self.playlists[i].name.clone();
                            let got = self.track_cache.get(&name);
                            match got {
                                Some(cached) => {
                                    let copy = clone_tracks(cached);
                                    self.tracks = copy;
                                    self.track_state.selected = if self.tracks.len() == 0 {
                                        None
                                    } else {
                                        Some(0)
                                    };
                                    self.view = LibraryView::Tracks;
                                    None
                                },
                                None => {
                                    self.loading = true;
                                    Some(Action::FetchTracks(name))
                                },
                            }
                        } else {
                            None
                        }
                    },
                    None => None,
                }
            },
            _ => {
                let sel = self.track_state.selected;
                match sel {
                    Some(i) => {
                        if i < self.tracks.len() {
                            Some(Action::PlayTrack(self.tracks[i].id))
                        } else {
                            None
                        }
                    },
                    None => None,
                }
            },
        }
    }

    /// Navigate back to the playlist list.
    fn navigate_back(&mut self)
        ensures
            final(self)@ == old(self)@.navigate_back_t(),
    {
        match self.view {
            LibraryView::Playlists => {},
            _ => {
                self.view = LibraryView::Playlists;
                self.tracks = Vec::new();
                self.track_state.selected = None;
            },
        }
    }

    /// Apply a global key.
    fn handle_global_key(&mut self, k: Key) -> (r: Option<Action>)
        ensures
            ({
                let (s2, a) = old(self)@.handle_global_key_t(k);
                final(self)@ == s2 && opt_action_view(r) == a
            }),
    {
        match k {
            Key::Char('q') => {
                self.should_quit = true;
                None
            },
            Key::Char(' ') => Some(Action::TogglePlayback),
            Key::Char('n') => Some(Action::NextTrack),
            Key::Char('p') => Some(Action::PreviousTrack),
            Key::Char('+') | Key::Char('=') => Some(
                Action::SetVolume(volume_up(self.player.volume)),
            ),
            Key::Char('-') => Some(Action::SetVolume(volume_down(self.player.volume))),
            Key::Char('s') => Some(Action::ToggleShuffle),
            Key::Char('r') => Some(Action::CycleRepeat),
            Key::Left | Key::Char('<') | Key::Char(',') => Some(
                Action::SeekTo(seek_back(self.player.position)),
            ),
            Key::Right | Key::Char('>') | Key::Char('.') => Some(
                Action::SeekTo(seek_forward(self.player.position, self.player.duration)),
            ),
            Key::Char('1') => {
                self.active_panel = Panel::NowPlaying;
                None
            },
            Key::Char('2') => {
                self.active_panel = Panel::Library;
                None
            },
            Key::Tab => {
                self.active_panel = match self.active_panel {
                    Panel::NowPlaying => Panel::Library,
                    Panel::Library => Panel::NowPlaying,
                };
                None
            },
            _ => None,
        }
    }

    /// Apply a fresh player snapshot; the caller starts the returned
    /// artwork fetch, if any.
    pub fn handle_player_update(&mut self, status: PlayerStatus) -> (r: Option<Action>)
        ensures
            ({
                let (s2, a) = old(self)@.handle_player_update_t(status);
                final(self)@ == s2 && opt_action_view(r) == a
            }),
    {
        let changed = !status.track_name.as_str().is_empty() && !str_eq(
            status.track_name.as_str(),
            self.artwork_track.as_str(),
        );
        let r = if changed {
            self.artwork_track = status.track_name.clone();
            self.artwork = None;
            Some(Action::FetchArtwork(status.track_name.clone(), status.artist.clone()))
        } else {
            None
        };
        self.player = status;
        r
    }

    /// Apply a fetched track list.
    pub fn handle_tracks_loaded(
        &mut self,
        target_view: LibraryView,
        cache_key: String,
        tracks: Vec<TrackEntry>,
    )
        ensures
            final(self)@ == old(self)@.handle_tracks_loaded_t(target_view, cache_key@, tracks@),
    {
        self.loading = false;
        if !cache_key.as_str().is_empty() {
            let copy = clone_tracks(&tracks);
            self.track_cache.insert(cache_key, copy);
        }
        self.tracks = tracks;
        self.track_state.selected = if self.tracks.len() == 0 {
            None
        } else {
            Some(0)
        };
        self.view = target_view;
    }

    /// Apply an asynchronously arrived artwork result; a result whose
    /// key no longer matches the current track never changes the
    /// stored image.
    pub fn handle_artwork_loaded(&mut self, track_key: String, img: Option<image::DynamicImage>)
        ensures
            final(self)@ == old(self)@.handle_artwork_loaded_t(track_key@, img),
    {
        if str_eq(track_key.as_str(), self.artwork_track.as_str()) {
            self.artwork = img;
        }
    }

    /// Apply one event; the caller performs the returned action.
    pub fn handle_event(&mut self, e: AppEvent) -> (r: Option<Action>)
        ensures
            ({
                let (s2, a) = old(self)@.handle_event_t(e@);
                final(self)@ == s2 && opt_action_view(r) == a
            }),
    {
        match e {
            AppEvent::Key(k) => self.handle_key(k),
            AppEvent::Tick => None,
            AppEvent::PlayerUpdate(st) => self.handle_player_update(st),
            AppEvent::TracksLoaded(v, key, ts) => {
                self.handle_tracks_loaded(v, key, ts);
                None
            },
            AppEvent::ArtworkLoaded(key, img) => {
                self.handle_artwork_loaded(key, img);
                None
            },
        }
    }
}

} // verus!

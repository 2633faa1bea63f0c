use cli_music::app::{App, LibraryView};
use cli_music::events::{Action, AppEvent, Key};
use cli_music::library::{PlaylistEntry, TrackEntry};

fn playlist(id: i32, name: &str) -> PlaylistEntry {
    PlaylistEntry { id, name: String::from(name) }
}

fn track(id: i32, name: &str) -> TrackEntry {
    TrackEntry {
        id,
        name: String::from(name),
        artist: String::new(),
        album: String::new(),
        duration: 60,
    }
}

#[test]
fn drilling_into_an_uncached_playlist_fetches_then_loads() {
    // Drill into "Jazz" (uncached): loading turns on and the view
    // stays on playlists until its TracksLoaded arrives; then loading
    // ends, the tracks show with the first row selected, and the list
    // is cached, so drilling in again fetches nothing.
    let mut app = App::default();
    app.set_playlists(vec![playlist(1, "Jazz")]);
    let act = app.handle_key(Key::Enter);
    match act {
        Some(Action::FetchTracks(name)) => assert_eq!(name, "Jazz"),
        other => panic!("expected a fetch action, got {:?}", other.is_some()),
    }
    assert!(app.loading);
    assert_eq!(app.view, LibraryView::Playlists);

    let fetched = vec![track(10, "So What"), track(11, "Blue in Green")];
    let act = app.handle_event(AppEvent::TracksLoaded(
        LibraryView::Tracks,
        String::from("Jazz"),
        fetched,
    ));
    assert!(act.is_none());
    assert!(!app.loading);
    assert_eq!(app.view, LibraryView::Tracks);
    assert_eq!(app.track_state.selected, Some(0));
    assert_eq!(app.tracks.len(), 2);
    assert!(app.track_cache.contains_key(&String::from("Jazz")));

    // Back to playlists, then drill into "Jazz" again: no new fetch.
    app.handle_key(Key::Left);
    let act = app.handle_key(Key::Enter);
    assert!(act.is_none());
    assert!(!app.loading);
    assert_eq!(app.view, LibraryView::Tracks);
    assert_eq!(app.tracks.len(), 2);
    assert_eq!(app.tracks[0].name, "So What");
}

#[test]
fn cached_playlist_never_fetches_uncached_always_does() {
    let mut app = App::default();
    app.set_playlists(vec![playlist(1, "Hot"), playlist(2, "Cold")]);
    app.track_cache.insert(String::from("Hot"), vec![track(5, "Fire")]);

    let act = app.handle_key(Key::Enter);
    assert!(act.is_none(), "a cached playlist must not trigger a fetch");
    assert_eq!(app.view, LibraryView::Tracks);
    assert_eq!(app.tracks.len(), 1);

    app.handle_key(Key::Left);
    app.select_next();
    let act = app.handle_key(Key::Enter);
    assert!(
        matches!(act, Some(Action::FetchTracks(ref n)) if n == "Cold"),
        "an uncached playlist must always trigger a fetch"
    );
}

#[test]
fn tracks_loaded_with_empty_key_is_not_cached() {
    let mut app = App::default();
    app.handle_tracks_loaded(
        LibraryView::SearchResults,
        String::new(),
        vec![track(1, "Found")],
    );
    assert_eq!(app.view, LibraryView::SearchResults);
    assert_eq!(app.tracks.len(), 1);
    assert!(!app.track_cache.contains_key(&String::new()));
}

#[test]
fn tracks_loaded_with_no_tracks_selects_nothing() {
    let mut app = App::default();
    app.handle_tracks_loaded(LibraryView::Tracks, String::from("Empty"), Vec::new());
    assert_eq!(app.track_state.selected, None);
    assert!(app.track_cache.contains_key(&String::from("Empty")));
}

#[test]
fn a_later_insert_shadows_the_earlier_one() {
    let mut app = App::default();
    app.track_cache.insert(String::from("K"), vec![track(1, "Old")]);
    app.track_cache.insert(String::from("K"), vec![track(2, "New"), track(3, "Newer")]);
    let got = app.track_cache.get(&String::from("K")).expect("key must be present");
    assert_eq!(got.len(), 2);
    assert_eq!(got[0].name, "New");
}

#[test]
fn cache_lookup_misses_an_absent_key() {
    let app = App::default();
    assert!(app.track_cache.get(&String::from("nowhere")).is_none());
}

#[test]
fn drilling_on_a_track_row_plays_it() {
    let mut app = App::default();
    app.view = LibraryView::Tracks;
    app.tracks = vec![track(41, "One"), track(42, "Two")];
    app.track_state.selected = Some(1);
    let act = app.handle_key(Key::Enter);
    assert!(matches!(act, Some(Action::PlayTrack(42))));
    assert_eq!(app.tracks.len(), 2, "playing a track must not alter local state");
}

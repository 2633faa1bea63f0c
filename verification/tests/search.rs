use cli_music::app::{App, LibraryView};
use cli_music::events::{Action, Key};
use cli_music::library::{PlaylistEntry, TrackEntry};

fn playlist(id: i32, name: &str) -> PlaylistEntry {
    PlaylistEntry { id, name: String::from(name) }
}

fn track(id: i32, name: &str, artist: &str) -> TrackEntry {
    TrackEntry {
        id,
        name: String::from(name),
        artist: String::from(artist),
        album: String::new(),
        duration: 180,
    }
}

fn app_with_tracks(tracks: Vec<TrackEntry>) -> App {
    let mut app = App::default();
    app.view = LibraryView::Tracks;
    let len = tracks.len();
    app.tracks = tracks;
    app.track_state.selected = if len == 0 { None } else { Some(0) };
    app
}

#[test]
fn enter_then_cancel_restores_the_list() {
    let mut app = App::default();
    app.set_playlists(vec![playlist(1, "Rock"), playlist(2, "Jazz")]);
    app.select_next();
    app.enter_search();
    app.cancel_search();
    let names: Vec<&str> = app.playlists.iter().map(|p| p.name.as_str()).collect();
    assert_eq!(names, vec!["Rock", "Jazz"]);
    assert_eq!(app.playlist_state.selected, Some(0));
    assert!(!app.search_mode);
    assert!(app.search_query.is_empty());
}

#[test]
fn enter_then_cancel_on_empty_list_selects_nothing() {
    let mut app = App::default();
    app.enter_search();
    app.cancel_search();
    assert_eq!(app.playlist_state.selected, None);
}

#[test]
fn filter_then_empty_query_restores_the_snapshot() {
    let mut app = App::default();
    app.set_playlists(vec![playlist(1, "Rock"), playlist(2, "Jazz"), playlist(3, "Blues")]);
    app.enter_search();
    app.search_query = String::from("ja");
    app.apply_search_filter();
    assert_eq!(app.playlists.len(), 1);
    app.search_query = String::new();
    app.apply_search_filter();
    let names: Vec<&str> = app.playlists.iter().map(|p| p.name.as_str()).collect();
    assert_eq!(names, vec!["Rock", "Jazz", "Blues"]);
    assert_eq!(app.playlist_state.selected, Some(0));
}

#[test]
fn filtering_is_case_insensitive_substring_matching() {
    // A track named "Odyssey" matches the query "ody".
    let mut app = app_with_tracks(vec![track(1, "Odyssey", "Somebody"), track(2, "Red", "Y")]);
    app.enter_search();
    app.search_query = String::from("ody");
    app.apply_search_filter();
    assert_eq!(app.tracks.len(), 1);
    assert_eq!(app.tracks[0].name, "Odyssey");
}

#[test]
fn filtering_lowercases_the_query_too() {
    let mut app = app_with_tracks(vec![track(1, "odyssey", "x"), track(2, "Blue", "Y")]);
    app.enter_search();
    app.search_query = String::from("ODY");
    app.apply_search_filter();
    assert_eq!(app.tracks.len(), 1);
    assert_eq!(app.tracks[0].name, "odyssey");
}

#[test]
fn filtering_matches_the_artist_as_well() {
    let mut app = app_with_tracks(vec![track(1, "Blue", "Miles"), track(2, "Red", "Y")]);
    app.enter_search();
    app.search_query = String::from("mile");
    app.apply_search_filter();
    assert_eq!(app.tracks.len(), 1);
    assert_eq!(app.tracks[0].name, "Blue");
}

#[test]
fn filter_with_no_match_empties_the_list_and_selection() {
    let mut app = app_with_tracks(vec![track(1, "Blue", "X")]);
    app.enter_search();
    app.search_query = String::from("zzz");
    app.apply_search_filter();
    assert!(app.tracks.is_empty());
    assert_eq!(app.track_state.selected, None);
}

#[test]
fn typed_query_filters_and_escape_restores() {
    // Enter search on tracks [("Blue","X"), ("Red","Y")], type "re":
    // the filtered list is [("Red","Y")] with the first row selected;
    // escape restores both tracks in their original order.
    let mut app = app_with_tracks(vec![track(1, "Blue", "X"), track(2, "Red", "Y")]);
    app.handle_key(Key::Char('/'));
    assert!(app.search_mode);
    app.handle_key(Key::Char('r'));
    app.handle_key(Key::Char('e'));
    assert_eq!(app.search_query, "re");
    assert_eq!(app.tracks.len(), 1);
    assert_eq!(app.tracks[0].name, "Red");
    assert_eq!(app.tracks[0].artist, "Y");
    assert_eq!(app.track_state.selected, Some(0));
    app.handle_key(Key::Esc);
    assert!(!app.search_mode);
    let names: Vec<&str> = app.tracks.iter().map(|t| t.name.as_str()).collect();
    assert_eq!(names, vec!["Blue", "Red"]);
    assert_eq!(app.track_state.selected, Some(0));
}

#[test]
fn backspace_reapplies_the_filter() {
    let mut app = app_with_tracks(vec![track(1, "Blue", "X"), track(2, "Red", "Y")]);
    app.handle_key(Key::Char('/'));
    app.handle_key(Key::Char('r'));
    app.handle_key(Key::Char('x'));
    assert!(app.tracks.is_empty());
    app.handle_key(Key::Backspace);
    assert_eq!(app.search_query, "r");
    assert_eq!(app.tracks.len(), 1);
    assert_eq!(app.tracks[0].name, "Red");
}

#[test]
fn confirm_with_query_submits_a_background_search() {
    let mut app = app_with_tracks(vec![track(1, "Blue", "X")]);
    app.handle_key(Key::Char('/'));
    app.handle_key(Key::Char('b'));
    let act = app.handle_key(Key::Enter);
    assert!(!app.search_mode);
    assert!(app.loading);
    match act {
        Some(Action::SearchTracks(q)) => assert_eq!(q, "b"),
        other => panic!("expected a search action, got {:?}", other.is_some()),
    }
}

#[test]
fn confirm_with_empty_query_submits_nothing() {
    let mut app = app_with_tracks(vec![track(1, "Blue", "X")]);
    app.handle_key(Key::Char('/'));
    let act = app.handle_key(Key::Enter);
    assert!(act.is_none());
    assert!(!app.search_mode);
    assert!(!app.loading);
    assert_eq!(app.tracks.len(), 1);
}

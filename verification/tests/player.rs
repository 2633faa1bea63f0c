use cli_music::app::{App, Panel};
use cli_music::events::{Action, Key};
use cli_music::player::{
    clamp_volume, cycle_play_mode, player_status_from_raw, PlayState, PlayerStatus, RepeatMode,
};

fn raw_status(state: &str, repeat: &str) -> PlayerStatus {
    player_status_from_raw(
        String::from("T"),
        String::from("A"),
        String::from("L"),
        120,
        30,
        String::from(state),
        70,
        true,
        String::from(repeat),
    )
}

#[test]
fn default_status_is_stopped_and_empty() {
    let s = PlayerStatus::default();
    assert_eq!(s.track_name, "");
    assert_eq!(s.artist, "");
    assert_eq!(s.album, "");
    assert_eq!(s.duration, 0);
    assert_eq!(s.position, 0);
    assert_eq!(s.state, PlayState::Stopped);
    assert_eq!(s.volume, 50);
    assert!(!s.shuffle);
    assert_eq!(s.repeat, RepeatMode::Off);
}

#[test]
fn raw_state_names_map_to_play_states() {
    assert_eq!(raw_status("playing", "off").state, PlayState::Playing);
    assert_eq!(raw_status("paused", "off").state, PlayState::Paused);
    assert_eq!(raw_status("stopped", "off").state, PlayState::Stopped);
    assert_eq!(raw_status("garbled", "off").state, PlayState::Stopped);
}

#[test]
fn raw_repeat_names_map_to_repeat_modes() {
    assert_eq!(raw_status("playing", "one").repeat, RepeatMode::One);
    assert_eq!(raw_status("playing", "all").repeat, RepeatMode::All);
    assert_eq!(raw_status("playing", "off").repeat, RepeatMode::Off);
    assert_eq!(raw_status("playing", "garbled").repeat, RepeatMode::Off);
}

#[test]
fn raw_fields_carry_through() {
    let s = raw_status("playing", "all");
    assert_eq!(s.track_name, "T");
    assert_eq!(s.artist, "A");
    assert_eq!(s.album, "L");
    assert_eq!(s.duration, 120);
    assert_eq!(s.position, 30);
    assert_eq!(s.volume, 70);
    assert!(s.shuffle);
}

#[test]
fn play_mode_cycles_through_all_four_stages() {
    // normal -> shuffle -> repeat all -> repeat one -> normal
    let mut s = PlayerStatus::default();
    s.shuffle = false;
    s.repeat = RepeatMode::Off;
    let t = cycle_play_mode(&s);
    assert!(t.shuffle);
    assert_eq!(t.repeat, RepeatMode::Off);

    s.shuffle = true;
    let t = cycle_play_mode(&s);
    assert!(!t.shuffle);
    assert_eq!(t.repeat, RepeatMode::All);

    s.shuffle = false;
    s.repeat = RepeatMode::All;
    let t = cycle_play_mode(&s);
    assert!(!t.shuffle);
    assert_eq!(t.repeat, RepeatMode::One);

    s.repeat = RepeatMode::One;
    let t = cycle_play_mode(&s);
    assert!(!t.shuffle);
    assert_eq!(t.repeat, RepeatMode::Off);
}

#[test]
fn volume_keys_step_and_cap() {
    let mut app = App::default();
    app.active_panel = Panel::NowPlaying;
    app.player.volume = 97;
    let act = app.handle_key(Key::Char('+'));
    assert!(matches!(act, Some(Action::SetVolume(100))));
    app.player.volume = 3;
    let act = app.handle_key(Key::Char('-'));
    assert!(matches!(act, Some(Action::SetVolume(0))));
    app.player.volume = 50;
    let act = app.handle_key(Key::Char('='));
    assert!(matches!(act, Some(Action::SetVolume(55))));
}

#[test]
fn shuffle_target_negates_the_polled_flag() {
    assert!(cli_music::player::toggle_shuffle_target(false));
    assert!(!cli_music::player::toggle_shuffle_target(true));
}

#[test]
fn repeat_target_steps_off_all_one_off() {
    assert_eq!(cli_music::player::cycle_repeat_target(RepeatMode::Off), RepeatMode::All);
    assert_eq!(cli_music::player::cycle_repeat_target(RepeatMode::All), RepeatMode::One);
    assert_eq!(cli_music::player::cycle_repeat_target(RepeatMode::One), RepeatMode::Off);
}

#[test]
fn clamp_volume_bounds_its_argument() {
    assert_eq!(clamp_volume(-7), 0);
    assert_eq!(clamp_volume(101), 100);
    assert_eq!(clamp_volume(42), 42);
}

#[test]
fn seek_keys_clamp_to_the_track() {
    let mut app = App::default();
    app.active_panel = Panel::NowPlaying;
    app.player.position = 3;
    app.player.duration = 100;
    let act = app.handle_key(Key::Char(','));
    assert!(matches!(act, Some(Action::SeekTo(0))));
    app.player.position = 98;
    let act = app.handle_key(Key::Char('.'));
    assert!(matches!(act, Some(Action::SeekTo(100))));
    app.player.position = 40;
    let act = app.handle_key(Key::Char('.'));
    assert!(matches!(act, Some(Action::SeekTo(45))));
}

#[test]
fn global_playback_keys_dispatch_commands() {
    let mut app = App::default();
    app.active_panel = Panel::NowPlaying;
    assert!(matches!(app.handle_key(Key::Char(' ')), Some(Action::TogglePlayback)));
    assert!(matches!(app.handle_key(Key::Char('n')), Some(Action::NextTrack)));
    assert!(matches!(app.handle_key(Key::Char('p')), Some(Action::PreviousTrack)));
    assert!(matches!(app.handle_key(Key::Char('s')), Some(Action::ToggleShuffle)));
    assert!(matches!(app.handle_key(Key::Char('r')), Some(Action::CycleRepeat)));
}

#[test]
fn quit_key_sets_the_flag() {
    let mut app = App::default();
    let act = app.handle_key(Key::Char('q'));
    assert!(act.is_none());
    assert!(app.should_quit);
}

#[test]
fn panel_keys_and_tab_switch_panels() {
    let mut app = App::default();
    app.handle_key(Key::Char('1'));
    assert_eq!(app.active_panel, Panel::NowPlaying);
    app.handle_key(Key::Char('2'));
    assert_eq!(app.active_panel, Panel::Library);
    app.handle_key(Key::Tab);
    assert_eq!(app.active_panel, Panel::NowPlaying);
    app.handle_key(Key::Tab);
    assert_eq!(app.active_panel, Panel::Library);
}

#[test]
fn update_player_status_replaces_the_snapshot() {
    let mut app = App::default();
    app.update_player_status(raw_status("paused", "all"));
    assert_eq!(app.player.state, PlayState::Paused);
    assert_eq!(app.player.repeat, RepeatMode::All);
    assert_eq!(app.player.volume, 70);
}

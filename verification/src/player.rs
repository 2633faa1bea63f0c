//! Snapshot of the remote player and the pure decisions behind the
//! playback commands: play-mode cycling, volume stepping and seeking.
//!
//! A snapshot is an immutable value, replaced wholesale on each poll.
//! Durations and positions are whole seconds.

use vstd::prelude::*;

verus! {

/// Play state of the remote player.
#[derive(Debug, Clone, Copy, PartialEq, Eq, Structural)]
pub enum PlayState {
    Playing,
    Paused,
    Stopped,
}

/// Repeat mode of the remote player.
#[derive(Debug, Clone, Copy, PartialEq, Eq, Structural)]
pub enum RepeatMode {
    Off,
    One,
    All,
}

/// One snapshot of the remote player.  The default value stands for
/// "no player / stopped" and differs from a genuinely stopped,
/// track-bearing snapshot only by its empty track name.
#[derive(Debug)]
pub struct PlayerStatus {
    pub track_name: String,
    pub artist: String,
    pub album: String,
    /// Track length in whole seconds.
    pub duration: u32,
    /// Play position in whole seconds.
    pub position: u32,
    pub state: PlayState,
    /// Volume in percent, 0 to 100.
    pub volume: i8,
    pub shuffle: bool,
    pub repeat: RepeatMode,
}

impl Clone for PlayerStatus {
    fn clone(&self) -> (r: Self)
        ensures
            r == *self,
    {
        PlayerStatus {
            track_name: self.track_name.clone(),
            artist: self.artist.clone(),
            album: self.album.clone(),
            duration: self.duration,
            position: self.position,
            state: self.state,
            volume: self.volume,
            shuffle: self.shuffle,
            repeat: self.repeat,
        }
    }
}

/// What the default snapshot holds: everything empty or stopped, with
/// the player's customary half volume.
pub open spec fn is_default_status(s: PlayerStatus) -> bool {
    &&& s.track_name@ == Seq::<char>::empty()
    &&& s.artist@ == Seq::<char>::empty()
    &&& s.album@ == Seq::<char>::empty()
    &&& s.duration == 0
    &&& s.position == 0
    &&& s.state == PlayState::Stopped
    &&& s.volume == 50
    &&& s.shuffle == false
    &&& s.repeat == RepeatMode::Off
}

impl Default for PlayerStatus {
    /// The "no player" snapshot.
    fn default() -> (r: Self)
        ensures
            is_default_status(r),
    {
        PlayerStatus {
            track_name: String::new(),
            artist: String::new(),
            album: String::new(),
            duration: 0,
            position: 0,
            state: PlayState::Stopped,
            volume: 50,
            shuffle: false,
            repeat: RepeatMode::Off,
        }
    }
}

/// How the player names its play states.
pub open spec fn parse_play_state(s: Seq<char>) -> PlayState {
    if s == "playing"@ {
        PlayState::Playing
    } else if s == "paused"@ {
        PlayState::Paused
    } else {
        PlayState::Stopped
    }
}

/// How the player names its repeat modes.
pub open spec fn parse_repeat_mode(s: Seq<char>) -> RepeatMode {
    if s == "one"@ {
        RepeatMode::One
    } else if s == "all"@ {
        RepeatMode::All
    } else {
        RepeatMode::Off
    }
}

/// Build a snapshot from the raw fields a status poll yields.  The
/// textual play state and repeat mode are mapped to their closed
/// enumerations; anything unrecognised degrades to stopped / off.
pub fn player_status_from_raw(
    name: String,
    artist: String,
    album: String,
    duration: u32,
    position: u32,
    state: String,
    volume: i8,
    shuffle: bool,
    repeat: String,
) -> (r: PlayerStatus)
    ensures
        r.track_name == name,
        r.artist == artist,
        r.album == album,
        r.duration == duration,
        r.position == position,
        r.state == parse_play_state(state@),
        r.volume == volume,
        r.shuffle == shuffle,
        r.repeat == parse_repeat_mode(repeat@),
{
    let st = if crate::text::str_eq(state.as_str(), "playing") {
        PlayState::Playing
    } else if crate::text::str_eq(state.as_str(), "paused") {
        PlayState::Paused
    } else {
        PlayState::Stopped
    };
    let rp = if crate::text::str_eq(repeat.as_str(), "one") {
        RepeatMode::One
    } else if crate::text::str_eq(repeat.as_str(), "all") {
        RepeatMode::All
    } else {
        RepeatMode::Off
    };
    PlayerStatus {
        track_name: name,
        artist,
        album,
        duration,
        position,
        state: st,
        volume,
        shuffle,
        repeat: rp,
    }
}

/// A shuffle flag and repeat mode the player should be put into.
#[derive(Debug, Clone, Copy, PartialEq, Eq, Structural)]
pub struct PlayModeTarget {
    pub shuffle: bool,
    pub repeat: RepeatMode,
}

/// Cycle play mode: normal, then shuffle, then repeat all, then repeat
/// one, then normal again.  Decides from the already-polled snapshot
/// which mode the player should be set to next.
pub fn cycle_play_mode(player: &PlayerStatus) -> (r: PlayModeTarget)
    ensures
        player.shuffle ==> r == (PlayModeTarget { shuffle: false, repeat: RepeatMode::All }),
        !player.shuffle && player.repeat == RepeatMode::All ==> r == (PlayModeTarget {
            shuffle: false,
            repeat: RepeatMode::One,
        }),
        !player.shuffle && player.repeat == RepeatMode::One ==> r == (PlayModeTarget {
            shuffle: false,
            repeat: RepeatMode::Off,
        }),
        !player.shuffle && player.repeat == RepeatMode::Off ==> r == (PlayModeTarget {
            shuffle: true,
            repeat: RepeatMode::Off,
        }),
{
    if player.shuffle {
        PlayModeTarget { shuffle: false, repeat: RepeatMode::All }
    } else {
        match player.repeat {
            RepeatMode::All => PlayModeTarget { shuffle: false, repeat: RepeatMode::One },
            RepeatMode::One => PlayModeTarget { shuffle: false, repeat: RepeatMode::Off },
            RepeatMode::Off => PlayModeTarget { shuffle: true, repeat: RepeatMode::Off },
        }
    }
}

/// Whether shuffle should be on after the shuffle key: the opposite
/// of the polled flag.
pub fn toggle_shuffle_target(currently_on: bool) -> (r: bool)
    ensures
        r == !currently_on,
{
    !currently_on
}

/// The repeat mode after the repeat key: off, then all, then one,
/// then off again.
pub fn cycle_repeat_target(current: RepeatMode) -> (r: RepeatMode)
    ensures
        current == RepeatMode::Off ==> r == RepeatMode::All,
        current == RepeatMode::All ==> r == RepeatMode::One,
        current == RepeatMode::One ==> r == RepeatMode::Off,
{
    match current {
        RepeatMode::Off => RepeatMode::All,
        RepeatMode::All => RepeatMode::One,
        RepeatMode::One => RepeatMode::Off,
    }
}

/// Clamp a requested volume into the player's 0 to 100 range.
pub fn clamp_volume(vol: i8) -> (r: i8)
    ensures
        r == (if vol < 0 {
            0i8
        } else if vol > 100 {
            100i8
        } else {
            vol
        }),
{
    if vol < 0 {
        0
    } else if vol > 100 {
        100
    } else {
        vol
    }
}

/// The volume one step (five percent) louder, capped at 100.
pub open spec fn volume_up_spec(v: int) -> int {
    if v + 5 >= 100 {
        100
    } else {
        v + 5
    }
}

/// The volume one step (five percent) quieter, floored at 0.
pub open spec fn volume_down_spec(v: int) -> int {
    if v - 5 <= 0 {
        0
    } else {
        v - 5
    }
}

/// Step the volume up by five percent, capped at 100.
pub fn volume_up(v: i8) -> (r: i8)
    ensures
        r == volume_up_spec(v as int),
{
    if v >= 95 {
        100
    } else {
        v + 5
    }
}

/// Step the volume down by five percent, floored at 0.
pub fn volume_down(v: i8) -> (r: i8)
    ensures
        r == volume_down_spec(v as int),
{
    if v <= 5 {
        0
    } else {
        v - 5
    }
}

/// Where a five-second seek backwards from `position` lands.
pub open spec fn seek_back_spec(position: int) -> int {
    if position - 5 <= 0 {
        0
    } else {
        position - 5
    }
}

/// Where a five-second seek forwards from `position` lands in a track
/// of length `duration`: five seconds later, capped at the end.
pub open spec fn seek_forward_spec(position: int, duration: int) -> int {
    if position + 5 >= duration {
        duration
    } else {
        position + 5
    }
}

/// The position a five-second seek backwards should jump to.
pub fn seek_back(position: u32) -> (r: u32)
    ensures
        r == seek_back_spec(position as int),
{
    if position <= 5 {
        0
    } else {
        position - 5
    }
}

/// The position a five-second seek forwards should jump to.
pub fn seek_forward(position: u32, duration: u32) -> (r: u32)
    ensures
        r == seek_forward_spec(position as int, duration as int),
{
    if position >= duration {
        duration
    } else if duration - position <= 5 {
        duration
    } else {
        position + 5
    }
}

} // verus!

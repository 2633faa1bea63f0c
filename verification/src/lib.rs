//! Core state machine of a terminal browser for a remote media player.
//!
//! The library owns the application state (playlists, tracks, search
//! session, playlist-track cache, artwork identity) and the pure
//! transitions that events apply to it.  Everything that blocks —
//! terminal input, status polling, library queries, artwork download,
//! rendering — lives outside the library and talks to it through plain
//! values and the event type defined here.

pub mod app;
pub mod art;
pub mod cache;
pub mod events;
pub mod laws;
pub mod library;
pub mod player;
pub mod text;

pub use app::{App, LibraryView, Panel};
pub use library::{PlaylistEntry, TrackEntry};
pub use player::{PlayState, PlayerStatus, RepeatMode};

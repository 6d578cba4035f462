//! The operations of the Web API, one type each.
//!
//! An operation is made with `new`, says with `request` what has to be sent, and makes
//! with `response` a result of the reply.

pub mod player;
pub use self::player::{
    enqueue_tracks, is_playing, EnqueueTrack, GetCurrentlyPlayingTrack, ListDevices,
    PausePlayback, Playback, SkipToNextTrack, StartPlaying,
};

pub mod playlists;
pub use self::playlists::GetPlaylists;

pub mod search;
pub use self::search::{SearchAlbums, SearchArtists};

pub mod token;
pub use self::token::RefreshToken;

pub mod tracks;
pub use self::tracks::ListTracks;

//! What a client of a music service can be asked to do.

use vstd::prelude::*;
use crate::spotify_api_spec::{ShuffleState, SpotifySearchType, SpotifyTimeRange};

verus! {

/// A client of a music service. Each method does one thing the user can ask
/// for, from beginning to end, and reports how it went.
pub trait MusicClient {
    /// How a request can fail.
    type Error;

    /// Pauses what plays, resumes what is paused.
    fn toggle(&self) -> Result<(), Self::Error>;

    /// Pauses the playback.
    fn pause(&self) -> Result<(), Self::Error>;

    /// Resumes the playback.
    fn resume(&self) -> Result<(), Self::Error>;

    /// Plays a track, or a context, there at a track where one is given.
    fn play(&self, track_id: Option<String>, context: Option<String>) -> Result<(), Self::Error>;

    /// Skips to the next track.
    fn goto_next_track(&self) -> Result<(), Self::Error>;

    /// Skips to the previous track.
    fn goto_prev_track(&self) -> Result<(), Self::Error>;

    /// Turns shuffling on or off.
    fn set_shuffle_state(&self, state: &ShuffleState) -> Result<(), Self::Error>;

    /// Searches the catalogue and shows what was found.
    fn search(&self, query: String, search_type: SpotifySearchType) -> Result<(), Self::Error>;

    /// Adds tracks to the user's saved tracks.
    fn save_tracks(&self, ids: Vec<String>) -> Result<(), Self::Error>;

    /// Shows the tracks that the user played most.
    fn get_top_tracks(&self, time_range: SpotifyTimeRange) -> Result<(), Self::Error>;

    /// Shows the track that is being played.
    fn print_current_track(&self) -> Result<(), Self::Error>;
}

} // verus!

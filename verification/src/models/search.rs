//! The response of the track-search endpoint.

use vstd::prelude::*;

use crate::models::playlist::{Album, Artist};

verus! {

/// A search answer: the track matches.
#[derive(Debug, Clone)]
pub struct SpotifySearchRes {
    pub tracks: SearchTracks,
}

/// The matched tracks.
#[derive(Debug, Clone)]
pub struct SearchTracks {
    pub items: Vec<SearchTrack>,
}

/// One matched track; unlike a playlist entry it carries the track's
/// URI, which queueing and playback need.
#[derive(Debug, Clone)]
pub struct SearchTrack {
    pub album: Album,
    pub artists: Vec<Artist>,
    pub name: String,
    pub uri: String,
}

} // verus!

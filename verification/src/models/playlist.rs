//! The response of the endpoint reading one playlist's tracks, trimmed
//! by the request's `fields` filter to names only.

use vstd::prelude::*;

verus! {

/// A bare token response shape, as the token endpoint's documentation
/// presents it.
#[derive(Debug, Clone)]
pub struct SpotifyTokenRes {
    pub access_token: String,
    pub token_type: String,
    pub expires_in: usize,
}

/// One playlist's contents.
#[derive(Debug, Clone)]
pub struct SpotifyPlaylistRes {
    pub tracks: Tracks,
}

/// The track entries of the playlist.
#[derive(Debug, Clone)]
pub struct Tracks {
    pub items: Vec<Item>,
}

/// One entry wrapping its track.
#[derive(Debug, Clone)]
pub struct Item {
    pub track: Track,
}

/// A track: its name, its album and its artists.
#[derive(Debug, Clone)]
pub struct Track {
    pub album: Album,
    pub artists: Vec<Artist>,
    pub name: String,
}

/// An album, by name.
#[derive(Debug, Clone)]
pub struct Album {
    pub name: String,
}

/// An artist, by name.
#[derive(Debug, Clone)]
pub struct Artist {
    pub name: String,
}

} // verus!

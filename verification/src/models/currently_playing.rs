//! The response of the endpoint reading what is currently playing.

use vstd::prelude::*;

use crate::models::playlist::Track;

verus! {

/// What is currently playing: the one track the player reports.
#[derive(Debug, Clone)]
pub struct SpotifyCurrentlyPlayingRes {
    pub item: Track,
}

} // verus!

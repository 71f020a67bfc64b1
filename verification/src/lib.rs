//! Token lifecycle core of a command-line client for a music-streaming
//! service's REST API.
//!
//! The crate models the OAuth2 authorization-code flow: obtaining a token
//! through a browser consent step and a local redirect listener, storing it
//! alongside the client credentials, checking its expiry, and refreshing it,
//! so that every outbound API call carries a currently-valid bearer token.
//! Request assembly for the API endpoints and the mapping of decoded
//! responses onto the client's own data shapes live here as well; the
//! surrounding binary performs the actual network and storage I/O.

pub mod auth;
pub mod db;
pub mod errors;
pub mod flow;
pub mod listener;
pub mod manager;
pub mod models;
pub mod spotify;

use vstd::prelude::*;

verus! {

/// A playlist as shown to the user: its display name, its owner's display
/// name, and the service's identifier for it.
#[derive(Debug, Clone)]
pub struct Playlist {
    pub name: String,
    pub owner: String,
    pub id: String,
}

/// A song as shown to the user, together with the service's URI for it
/// (empty when the endpoint that produced it does not report URIs).
#[derive(Debug, Clone)]
pub struct Song {
    pub name: String,
    pub album: String,
    pub artist: String,
    pub uri: String,
}

impl Song {
    /// The one-line rendering of a song: name, artist and album separated
    /// by ` | `.
    pub fn line(&self) -> (r: String)
        ensures
            r@ == self.name@ + " | "@ + self.artist@ + " | "@ + self.album@,
    {
        let mut out = String::new();
        out.append(self.name.as_str());
        out.append(" | ");
        out.append(self.artist.as_str());
        out.append(" | ");
        out.append(self.album.as_str());
        proof {
            assert(out@ =~= self.name@ + " | "@ + self.artist@ + " | "@ + self.album@);
        }
        out
    }
}

} // verus!

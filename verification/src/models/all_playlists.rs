//! The response of the endpoint listing the user's playlists. Fields the
//! service reports as nullable are options here.

use vstd::prelude::*;

verus! {

/// One page of the user's playlists.
#[derive(Debug, Clone)]
pub struct SpotifyAllPlaylistsRes {
    pub href: String,
    pub limit: i64,
    pub next: Option<String>,
    pub offset: i64,
    pub previous: Option<String>,
    pub total: i64,
    pub items: Vec<Items>,
}

/// One playlist entry of the page.
#[derive(Debug, Clone)]
pub struct Items {
    pub collaborative: bool,
    pub description: String,
    pub external_urls: ExternalUrls,
    pub href: String,
    pub id: String,
    pub images: Vec<Image>,
    pub name: String,
    pub owner: Owner,
    pub public: bool,
    pub snapshot_id: String,
    pub tracks: Tracks,
    pub type_field: String,
    pub uri: String,
    pub primary_color: Option<String>,
}

/// The web links of a playlist or owner.
#[derive(Debug, Clone)]
pub struct ExternalUrls {
    pub spotify: String,
}

/// A cover image; the service may omit its dimensions.
#[derive(Debug, Clone)]
pub struct Image {
    pub url: String,
    pub height: Option<i64>,
    pub width: Option<i64>,
}

/// The account owning a playlist.
#[derive(Debug, Clone)]
pub struct Owner {
    pub external_urls: ExternalUrls,
    pub href: String,
    pub id: String,
    pub type_field: String,
    pub uri: String,
    pub display_name: String,
}

/// The track summary of a playlist entry: where the tracks live and how
/// many there are.
#[derive(Debug, Clone)]
pub struct Tracks {
    pub href: String,
    pub total: i64,
}

} // verus!

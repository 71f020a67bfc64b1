//! The API operations: playlists, search, playback control.
//!
//! Each operation is a stateless "build request, send, decode" step
//! whose only logic is URL and parameter assembly and the mapping of the
//! decoded response onto the client's own shapes. Both halves are
//! verified here; the binary sends the requests and decodes the bodies.

use vstd::prelude::*;

use crate::auth::SpotifyAccessToken;
use crate::models::all_playlists::SpotifyAllPlaylistsRes;
use crate::models::currently_playing::SpotifyCurrentlyPlayingRes;
use crate::models::playlist::SpotifyPlaylistRes;
use crate::models::search::SpotifySearchRes;
use crate::{Playlist, Song};

verus! {

/// The HTTP method of an API request.
#[derive(Debug, Clone, Copy, PartialEq, Eq, Structural)]
pub enum Method {
    Get,
    Post,
    Put,
}

/// A fully assembled API request: the method and URL, the bearer token
/// authorizing it, the query parameters in order, and — for playback
/// starts and playlist updates — the list of track URIs to send as the
/// JSON body. A bodiless `Post` or `Put` is sent with `Content-Length:
/// 0`.
#[derive(Debug)]
pub struct ApiRequest {
    pub method: Method,
    pub url: String,
    pub bearer: String,
    pub query: Vec<(String, String)>,
    pub body_uris: Option<Vec<String>>,
}

/// The request listing the user's playlists.
pub fn all_playlists_request(token: &SpotifyAccessToken) -> (r: ApiRequest)
    ensures
        r.method is Get,
        r.url@ == "https://api.spotify.com/v1/me/playlists"@,
        r.bearer == token.access_token,
        r.query@.len() == 0,
        r.body_uris is None,
{
    ApiRequest {
        method: Method::Get,
        url: String::from_str("https://api.spotify.com/v1/me/playlists"),
        bearer: token.access_token.clone(),
        query: Vec::new(),
        body_uris: None,
    }
}

/// The request reading one playlist's tracks: the playlist URL with the
/// US market and a `fields` filter trimming the answer to track, artist
/// and album names.
pub fn playlist_request(token: &SpotifyAccessToken, id: &str) -> (r: ApiRequest)
    ensures
        r.method is Get,
        r.url@ == "https://api.spotify.com/v1/playlists/"@ + id@,
        r.bearer == token.access_token,
        r.query@.len() == 2,
        r.query@[0].0@ == "market"@ && r.query@[0].1@ == "US"@,
        r.query@[1].0@ == "fields"@ && r.query@[1].1@
            == "tracks.items(track(name, artists(name), album(name)))"@,
        r.body_uris is None,
{
    let mut url = String::new();
    url.append("https://api.spotify.com/v1/playlists/");
    url.append(id);
    proof {
        assert(url@ =~= "https://api.spotify.com/v1/playlists/"@ + id@);
    }
    let mut query: Vec<(String, String)> = Vec::new();
    query.push((String::from_str("market"), String::from_str("US")));
    query.push((
        String::from_str("fields"),
        String::from_str("tracks.items(track(name, artists(name), album(name)))"),
    ));
    ApiRequest {
        method: Method::Get,
        url,
        bearer: token.access_token.clone(),
        query,
        body_uris: None,
    }
}

/// The request reading what is currently playing, in the US market.
pub fn currently_playing_request(token: &SpotifyAccessToken) -> (r: ApiRequest)
    ensures
        r.method is Get,
        r.url@ == "https://api.spotify.com/v1/me/player/currently-playing"@,
        r.bearer == token.access_token,
        r.query@.len() == 1,
        r.query@[0].0@ == "market"@ && r.query@[0].1@ == "US"@,
        r.body_uris is None,
{
    let mut query: Vec<(String, String)> = Vec::new();
    query.push((String::from_str("market"), String::from_str("US")));
    ApiRequest {
        method: Method::Get,
        url: String::from_str("https://api.spotify.com/v1/me/player/currently-playing"),
        bearer: token.access_token.clone(),
        query,
        body_uris: None,
    }
}

/// The request skipping to the next song.
pub fn next_request(token: &SpotifyAccessToken) -> (r: ApiRequest)
    ensures
        r.method is Post,
        r.url@ == "https://api.spotify.com/v1/me/player/next"@,
        r.bearer == token.access_token,
        r.query@.len() == 0,
        r.body_uris is None,
{
    ApiRequest {
        method: Method::Post,
        url: String::from_str("https://api.spotify.com/v1/me/player/next"),
        bearer: token.access_token.clone(),
        query: Vec::new(),
        body_uris: None,
    }
}

/// The request skipping to the previous song.
pub fn previous_request(token: &SpotifyAccessToken) -> (r: ApiRequest)
    ensures
        r.method is Post,
        r.url@ == "https://api.spotify.com/v1/me/player/previous"@,
        r.bearer == token.access_token,
        r.query@.len() == 0,
        r.body_uris is None,
{
    ApiRequest {
        method: Method::Post,
        url: String::from_str("https://api.spotify.com/v1/me/player/previous"),
        bearer: token.access_token.clone(),
        query: Vec::new(),
        body_uris: None,
    }
}

/// The request searching tracks: the query, the US market, track
/// results only, five at most.
pub fn search_request(token: &SpotifyAccessToken, q: &str) -> (r: ApiRequest)
    ensures
        r.method is Get,
        r.url@ == "https://api.spotify.com/v1/search"@,
        r.bearer == token.access_token,
        r.query@.len() == 4,
        r.query@[0].0@ == "q"@ && r.query@[0].1@ == q@,
        r.query@[1].0@ == "market"@ && r.query@[1].1@ == "US"@,
        r.query@[2].0@ == "type"@ && r.query@[2].1@ == "track"@,
        r.query@[3].0@ == "limit"@ && r.query@[3].1@ == "5"@,
        r.body_uris is None,
{
    let mut query: Vec<(String, String)> = Vec::new();
    query.push((String::from_str("q"), String::from_str(q)));
    query.push((String::from_str("market"), String::from_str("US")));
    query.push((String::from_str("type"), String::from_str("track")));
    query.push((String::from_str("limit"), String::from_str("5")));
    ApiRequest {
        method: Method::Get,
        url: String::from_str("https://api.spotify.com/v1/search"),
        bearer: token.access_token.clone(),
        query,
        body_uris: None,
    }
}

/// The request queueing one track by its URI.
pub fn queue_request(token: &SpotifyAccessToken, uri: &str) -> (r: ApiRequest)
    ensures
        r.method is Post,
        r.url@ == "https://api.spotify.com/v1/me/player/queue"@,
        r.bearer == token.access_token,
        r.query@.len() == 1,
        r.query@[0].0@ == "uri"@ && r.query@[0].1@ == uri@,
        r.body_uris is None,
{
    let mut query: Vec<(String, String)> = Vec::new();
    query.push((String::from_str("uri"), String::from_str(uri)));
    ApiRequest {
        method: Method::Post,
        url: String::from_str("https://api.spotify.com/v1/me/player/queue"),
        bearer: token.access_token.clone(),
        query,
        body_uris: None,
    }
}

/// The request pausing playback.
pub fn pause_request(token: &SpotifyAccessToken) -> (r: ApiRequest)
    ensures
        r.method is Put,
        r.url@ == "https://api.spotify.com/v1/me/player/pause"@,
        r.bearer == token.access_token,
        r.query@.len() == 0,
        r.body_uris is None,
{
    ApiRequest {
        method: Method::Put,
        url: String::from_str("https://api.spotify.com/v1/me/player/pause"),
        bearer: token.access_token.clone(),
        query: Vec::new(),
        body_uris: None,
    }
}

/// The request resuming playback.
pub fn resume_request(token: &SpotifyAccessToken) -> (r: ApiRequest)
    ensures
        r.method is Put,
        r.url@ == "https://api.spotify.com/v1/me/player/play"@,
        r.bearer == token.access_token,
        r.query@.len() == 0,
        r.body_uris is None,
{
    ApiRequest {
        method: Method::Put,
        url: String::from_str("https://api.spotify.com/v1/me/player/play"),
        bearer: token.access_token.clone(),
        query: Vec::new(),
        body_uris: None,
    }
}

/// The request starting playback of the given tracks, sent as the JSON
/// body's URI list.
pub fn play_request(token: &SpotifyAccessToken, uris: Vec<String>) -> (r: ApiRequest)
    ensures
        r.method is Put,
        r.url@ == "https://api.spotify.com/v1/me/player/play"@,
        r.bearer == token.access_token,
        r.query@.len() == 0,
        r.body_uris == Some(uris),
{
    ApiRequest {
        method: Method::Put,
        url: String::from_str("https://api.spotify.com/v1/me/player/play"),
        bearer: token.access_token.clone(),
        query: Vec::new(),
        body_uris: Some(uris),
    }
}

/// The request switching shuffle on or off.
pub fn shuffle_request(token: &SpotifyAccessToken, state: bool) -> (r: ApiRequest)
    ensures
        r.method is Put,
        r.url@ == "https://api.spotify.com/v1/me/player/shuffle"@,
        r.bearer == token.access_token,
        r.query@.len() == 1,
        r.query@[0].0@ == "state"@,
        state ==> r.query@[0].1@ == "true"@,
        !state ==> r.query@[0].1@ == "false"@,
        r.body_uris is None,
{
    let value = if state {
        String::from_str("true")
    } else {
        String::from_str("false")
    };
    let mut query: Vec<(String, String)> = Vec::new();
    query.push((String::from_str("state"), value));
    ApiRequest {
        method: Method::Put,
        url: String::from_str("https://api.spotify.com/v1/me/player/shuffle"),
        bearer: token.access_token.clone(),
        query,
        body_uris: None,
    }
}

/// The request adding the given tracks to a playlist, sent as the JSON
/// body's URI list.
pub fn add_to_playlist_request(token: &SpotifyAccessToken, pid: &str, uris: Vec<String>) -> (r:
    ApiRequest)
    ensures
        r.method is Post,
        r.url@ == "https://api.spotify.com/v1/playlists/"@ + pid@ + "/tracks"@,
        r.bearer == token.access_token,
        r.query@.len() == 0,
        r.body_uris == Some(uris),
{
    let mut url = String::new();
    url.append("https://api.spotify.com/v1/playlists/");
    url.append(pid);
    url.append("/tracks");
    proof {
        assert(url@ =~= "https://api.spotify.com/v1/playlists/"@ + pid@ + "/tracks"@);
    }
    ApiRequest {
        method: Method::Post,
        url,
        bearer: token.access_token.clone(),
        query: Vec::new(),
        body_uris: Some(uris),
    }
}

/// Maps the playlists page onto the client's own shape: one `Playlist`
/// per entry, in order, carrying the entry's name, its owner's display
/// name and its id.
pub fn playlists_from_response(res: &SpotifyAllPlaylistsRes) -> (r: Vec<Playlist>)
    ensures
        r@.len() == res.items@.len(),
        forall|i: int| 0 <= i < r@.len() ==> (r@[i].name == res.items@[i].name
            && r@[i].owner == res.items@[i].owner.display_name && r@[i].id == res.items@[i].id),
{
    let mut out: Vec<Playlist> = Vec::new();
    let n = res.items.len();
    let mut k: usize = 0;
    while k < n
        invariant
            n == res.items@.len(),
            0 <= k <= n,
            out@.len() == k,
            forall|i: int| 0 <= i < k ==> (out@[i].name == res.items@[i].name
                && out@[i].owner == res.items@[i].owner.display_name
                && out@[i].id == res.items@[i].id),
        decreases n - k,
    {
        let item = &res.items[k];
        out.push(
            Playlist {
                name: item.name.clone(),
                owner: item.owner.display_name.clone(),
                id: item.id.clone(),
            },
        );
        k = k + 1;
    }
    out
}

/// Maps one playlist's tracks onto songs, in order: track name, album
/// name and first artist's name; playlist reads report no URIs, so the
/// URI is empty. Every entry must name at least one artist.
pub fn songs_from_playlist_response(res: &SpotifyPlaylistRes) -> (r: Vec<Song>)
    requires
        forall|i: int| 0 <= i < res.tracks.items@.len()
            ==> res.tracks.items@[i].track.artists@.len() > 0,
    ensures
        r@.len() == res.tracks.items@.len(),
        forall|i: int| 0 <= i < r@.len() ==> (r@[i].name == res.tracks.items@[i].track.name
            && r@[i].album == res.tracks.items@[i].track.album.name
            && r@[i].artist == res.tracks.items@[i].track.artists@[0].name
            && r@[i].uri@.len() == 0),
{
    let mut out: Vec<Song> = Vec::new();
    let n = res.tracks.items.len();
    let mut k: usize = 0;
    while k < n
        invariant
            n == res.tracks.items@.len(),
            0 <= k <= n,
            out@.len() == k,
            forall|i: int| 0 <= i < n ==> res.tracks.items@[i].track.artists@.len() > 0,
            forall|i: int| 0 <= i < k ==> (out@[i].name == res.tracks.items@[i].track.name
                && out@[i].album == res.tracks.items@[i].track.album.name
                && out@[i].artist == res.tracks.items@[i].track.artists@[0].name
                && out@[i].uri@.len() == 0),
        decreases n - k,
    {
        let track = &res.tracks.items[k].track;
        out.push(
            Song {
                name: track.name.clone(),
                album: track.album.name.clone(),
                artist: track.artists[0].name.clone(),
                uri: String::new(),
            },
        );
        k = k + 1;
    }
    out
}

/// Maps the currently-playing answer onto a song: track name, album
/// name and first artist's name, with an empty URI. The track must name
/// at least one artist.
pub fn song_from_currently_playing(res: &SpotifyCurrentlyPlayingRes) -> (r: Song)
    requires
        res.item.artists@.len() > 0,
    ensures
        r.name == res.item.name,
        r.album == res.item.album.name,
        r.artist == res.item.artists@[0].name,
        r.uri@.len() == 0,
{
    Song {
        name: res.item.name.clone(),
        album: res.item.album.name.clone(),
        artist: res.item.artists[0].name.clone(),
        uri: String::new(),
    }
}

/// Maps the search answer onto songs, in order: track name, album name,
/// first artist's name and the track's URI. Every match must name at
/// least one artist.
pub fn songs_from_search_response(res: &SpotifySearchRes) -> (r: Vec<Song>)
    requires
        forall|i: int| 0 <= i < res.tracks.items@.len()
            ==> res.tracks.items@[i].artists@.len() > 0,
    ensures
        r@.len() == res.tracks.items@.len(),
        forall|i: int| 0 <= i < r@.len() ==> (r@[i].name == res.tracks.items@[i].name
            && r@[i].album == res.tracks.items@[i].album.name
            && r@[i].artist == res.tracks.items@[i].artists@[0].name
            && r@[i].uri == res.tracks.items@[i].uri),
{
    let mut out: Vec<Song> = Vec::new();
    let n = res.tracks.items.len();
    let mut k: usize = 0;
    while k < n
        invariant
            n == res.tracks.items@.len(),
            0 <= k <= n,
            out@.len() == k,
            forall|i: int| 0 <= i < n ==> res.tracks.items@[i].artists@.len() > 0,
            forall|i: int| 0 <= i < k ==> (out@[i].name == res.tracks.items@[i].name
                && out@[i].album == res.tracks.items@[i].album.name
                && out@[i].artist == res.tracks.items@[i].artists@[0].name
                && out@[i].uri == res.tracks.items@[i].uri),
        decreases n - k,
    {
        let item = &res.tracks.items[k];
        out.push(
            Song {
                name: item.name.clone(),
                album: item.album.name.clone(),
                artist: item.artists[0].name.clone(),
                uri: item.uri.clone(),
            },
        );
        k = k + 1;
    }
    out
}

/// Finds the first playlist with the given display name, as selecting a
/// playlist by the name the user typed does.
pub fn find_playlist(playlists: &Vec<Playlist>, name: &str) -> (r: Option<usize>)
    ensures
        r matches Some(i) ==> (i < playlists@.len() && playlists@[i as int].name@ == name@
            && (forall|j: int| 0 <= j < i ==> playlists@[j].name@ != name@)),
        r is None ==> (forall|j: int| 0 <= j < playlists@.len() ==> playlists@[j].name@ != name@),
{
    let wanted = String::from_str(name);
    let n = playlists.len();
    let mut k: usize = 0;
    while k < n
        invariant
            n == playlists@.len(),
            0 <= k <= n,
            wanted@ == name@,
            forall|j: int| 0 <= j < k ==> playlists@[j].name@ != name@,
        decreases n - k,
    {
        if playlists[k].name == wanted {
            return Some(k);
        }
        k = k + 1;
    }
    None
}

} // verus!

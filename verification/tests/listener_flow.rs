//! The redirect listener's two decisions — the singleton port and the
//! query parse — and the authorization flow's transition table.

use playlist::auth::{AuthConfig, SpotifyAccessToken};
use playlist::errors::AuthError;
use playlist::flow::{AuthorizationFlow, FlowAction, FlowEvent, FlowState};
use playlist::listener::{code_from_query, confirmation_body, RedirectListener};
use playlist::spotify::{
    find_playlist, playlists_from_response, song_from_currently_playing,
    songs_from_playlist_response, songs_from_search_response,
};
use playlist::models::currently_playing::SpotifyCurrentlyPlayingRes;
use playlist::models::playlist::{Item, SpotifyPlaylistRes, Track, Tracks as PlaylistTracks};
use playlist::models::all_playlists::{
    ExternalUrls, Items, Owner, SpotifyAllPlaylistsRes, Tracks,
};
use playlist::models::playlist::{Album, Artist};
use playlist::models::search::{SearchTrack, SearchTracks, SpotifySearchRes};
use playlist::Song;

fn config() -> AuthConfig {
    AuthConfig::new("id".to_string(), "secret".to_string())
}

fn token() -> SpotifyAccessToken {
    SpotifyAccessToken {
        access_token: "AT1".to_string(),
        token_type: "Bearer".to_string(),
        scope: "x".to_string(),
        expires_in: 3600,
        refresh_token: "RT1".to_string(),
    }
}

#[test]
fn query_with_code_delivers_it() {
    assert_eq!(code_from_query("code=abc"), Some("abc".to_string()));
    assert_eq!(code_from_query("state=1&code=abc"), Some("abc".to_string()));
    assert_eq!(
        code_from_query("a=1&b=2&code=xyz&d=4"),
        Some("xyz".to_string())
    );
    assert_eq!(code_from_query("code=a"), Some("a".to_string()));
}

#[test]
fn query_without_code_is_rejected() {
    assert_eq!(code_from_query(""), None);
    assert_eq!(code_from_query("state=1"), None);
    assert_eq!(code_from_query("code="), None);
    assert_eq!(code_from_query("codex=1"), None);
    assert_eq!(code_from_query("mycode=1"), None);
    assert_eq!(code_from_query("code"), None);
    assert_eq!(code_from_query("&&&"), None);
}

#[test]
fn first_code_parameter_wins() {
    assert_eq!(
        code_from_query("code=first&code=second"),
        Some("first".to_string())
    );
    assert_eq!(
        code_from_query("code=&code=second"),
        Some("second".to_string())
    );
}

#[test]
fn second_bind_on_the_same_port_fails_fast() {
    let mut listener = RedirectListener::new(8888);
    assert!(listener.try_bind().is_ok());
    assert_eq!(listener.try_bind(), Err(AuthError::NetworkError));
    listener.unbind();
    assert!(listener.try_bind().is_ok());
}

#[test]
fn bound_listener_answers_requests() {
    let mut listener = RedirectListener::new(8888);
    listener.try_bind().unwrap();
    let info = listener.on_request("code=abc&state=s").unwrap();
    assert_eq!(info.code, "abc");
    assert_eq!(listener.on_request("state=s").unwrap_err(), 400);
    assert_eq!(
        confirmation_body(),
        "authorization code received; you can close this tab"
    );
}

#[test]
fn flow_walks_the_happy_path() {
    let mut flow = AuthorizationFlow::new(config());
    match flow.next_action() {
        FlowAction::StartListener { port } => assert_eq!(port, 8888),
        other => panic!("expected a listener start, got {:?}", other),
    }
    flow.step(FlowEvent::ListenerBound);
    match flow.next_action() {
        FlowAction::OpenBrowser { url } => {
            assert!(url.starts_with(
                "https://accounts.spotify.com/authorize?response_type=code&client_id=id"
            ));
        }
        other => panic!("expected a browser open, got {:?}", other),
    }
    flow.step(FlowEvent::BrowserLaunched);
    assert!(matches!(flow.next_action(), FlowAction::AwaitCode));
    flow.step(FlowEvent::CodeDelivered {
        code: "CODE1".to_string(),
    });
    match flow.next_action() {
        FlowAction::ExchangeCode { request } => {
            assert_eq!(request.url, "https://accounts.spotify.com/api/token");
            assert_eq!(request.params[0], ("code".to_string(), "CODE1".to_string()));
        }
        other => panic!("expected an exchange, got {:?}", other),
    }
    flow.step(FlowEvent::ExchangeSucceeded { token: token() });
    assert!(matches!(flow.next_action(), FlowAction::Finish));
    let t = flow.take_token();
    assert_eq!(t.access_token, "AT1");
    assert!(matches!(flow.state, FlowState::Done));
}

#[test]
fn bind_failure_aborts_with_network_error() {
    let mut flow = AuthorizationFlow::new(config());
    flow.step(FlowEvent::ListenerBindFailed);
    match flow.next_action() {
        FlowAction::Abort { error } => assert_eq!(error, AuthError::NetworkError),
        other => panic!("expected an abort, got {:?}", other),
    }
}

#[test]
fn exchange_failure_carries_the_server_error() {
    let mut flow = AuthorizationFlow::new(config());
    flow.step(FlowEvent::ListenerBound);
    flow.step(FlowEvent::BrowserLaunched);
    flow.step(FlowEvent::CodeDelivered {
        code: "C".to_string(),
    });
    flow.step(FlowEvent::ExchangeFailed {
        error: AuthError::AuthServerError { status: 400 },
    });
    match flow.next_action() {
        FlowAction::Abort { error } => {
            assert_eq!(error, AuthError::AuthServerError { status: 400 })
        }
        other => panic!("expected an abort, got {:?}", other),
    }
}

#[test]
fn timing_out_while_waiting_fails_the_attempt() {
    let mut flow = AuthorizationFlow::new(config());
    flow.step(FlowEvent::ListenerBound);
    flow.step(FlowEvent::BrowserLaunched);
    flow.step(FlowEvent::WaitTimedOut);
    match flow.next_action() {
        FlowAction::Abort { error } => assert_eq!(error, AuthError::NetworkError),
        other => panic!("expected an abort, got {:?}", other),
    }
}

#[test]
fn stray_events_do_not_move_the_machine() {
    let mut flow = AuthorizationFlow::new(config());
    flow.step(FlowEvent::BrowserLaunched);
    assert!(matches!(flow.state, FlowState::Idle));
    flow.step(FlowEvent::ListenerBindFailed);
    assert!(matches!(flow.state, FlowState::Failed { .. }));
    flow.step(FlowEvent::ListenerBound);
    assert!(matches!(flow.state, FlowState::Failed { .. }));
}

fn playlist_item(name: &str, owner: &str, id: &str) -> Items {
    Items {
        collaborative: false,
        description: String::new(),
        external_urls: ExternalUrls {
            spotify: String::new(),
        },
        href: String::new(),
        id: id.to_string(),
        images: Vec::new(),
        name: name.to_string(),
        owner: Owner {
            external_urls: ExternalUrls {
                spotify: String::new(),
            },
            href: String::new(),
            id: String::new(),
            type_field: String::new(),
            uri: String::new(),
            display_name: owner.to_string(),
        },
        public: true,
        snapshot_id: String::new(),
        tracks: Tracks {
            href: String::new(),
            total: 0,
        },
        type_field: String::new(),
        uri: String::new(),
        primary_color: None,
    }
}

#[test]
fn playlists_map_in_order() {
    let res = SpotifyAllPlaylistsRes {
        href: String::new(),
        limit: 20,
        next: None,
        offset: 0,
        previous: None,
        total: 2,
        items: vec![
            playlist_item("mix", "noah", "p1"),
            playlist_item("drive", "ana", "p2"),
        ],
    };
    let playlists = playlists_from_response(&res);
    assert_eq!(playlists.len(), 2);
    assert_eq!(playlists[0].name, "mix");
    assert_eq!(playlists[0].owner, "noah");
    assert_eq!(playlists[0].id, "p1");
    assert_eq!(playlists[1].name, "drive");

    assert_eq!(find_playlist(&playlists, "drive"), Some(1));
    assert_eq!(find_playlist(&playlists, "mix"), Some(0));
    assert_eq!(find_playlist(&playlists, "gone"), None);
}

#[test]
fn search_results_map_with_uris() {
    let res = SpotifySearchRes {
        tracks: SearchTracks {
            items: vec![SearchTrack {
                album: Album {
                    name: "album".to_string(),
                },
                artists: vec![
                    Artist {
                        name: "first".to_string(),
                    },
                    Artist {
                        name: "second".to_string(),
                    },
                ],
                name: "song".to_string(),
                uri: "uri:1".to_string(),
            }],
        },
    };
    let songs = songs_from_search_response(&res);
    assert_eq!(songs.len(), 1);
    assert_eq!(songs[0].name, "song");
    assert_eq!(songs[0].album, "album");
    assert_eq!(songs[0].artist, "first");
    assert_eq!(songs[0].uri, "uri:1");
}

fn track(name: &str, album: &str, artists: &[&str]) -> Track {
    Track {
        album: Album {
            name: album.to_string(),
        },
        artists: artists
            .iter()
            .map(|a| Artist {
                name: a.to_string(),
            })
            .collect(),
        name: name.to_string(),
    }
}

#[test]
fn playlist_songs_map_without_uris() {
    let res = SpotifyPlaylistRes {
        tracks: PlaylistTracks {
            items: vec![
                Item {
                    track: track("one", "a", &["x", "y"]),
                },
                Item {
                    track: track("two", "b", &["z"]),
                },
            ],
        },
    };
    let songs = songs_from_playlist_response(&res);
    assert_eq!(songs.len(), 2);
    assert_eq!(songs[0].name, "one");
    assert_eq!(songs[0].album, "a");
    assert_eq!(songs[0].artist, "x");
    assert_eq!(songs[0].uri, "");
    assert_eq!(songs[1].name, "two");
    assert_eq!(songs[1].artist, "z");
}

#[test]
fn currently_playing_maps_to_one_song() {
    let res = SpotifyCurrentlyPlayingRes {
        item: track("now", "album", &["artist"]),
    };
    let song = song_from_currently_playing(&res);
    assert_eq!(song.name, "now");
    assert_eq!(song.album, "album");
    assert_eq!(song.artist, "artist");
    assert_eq!(song.uri, "");
}

#[test]
fn song_line_renders_name_artist_album() {
    let song = Song {
        name: "name".to_string(),
        album: "album".to_string(),
        artist: "artist".to_string(),
        uri: String::new(),
    };
    assert_eq!(song.line(), "name | artist | album");
}

//! The response shapes of the API endpoints the client reads, as plain
//! data. The binary decodes HTTP bodies into copies of these shapes and
//! hands them over; the mapping onto the client's own types is verified
//! in `spotify`.

pub mod all_playlists;
pub mod currently_playing;
pub mod playlist;
pub mod search;

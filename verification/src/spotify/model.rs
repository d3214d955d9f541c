//! The shapes of what Spotify answers. Everything may be missing that the service
//! can do without.

use vstd::prelude::*;

verus! {

/// An entry of the listening history.
#[derive(Debug)]
pub struct PlayHistoryObject {
    pub track: TrackObject,
    pub played_at: Option<String>,
}

/// A track.
#[derive(Debug)]
pub struct TrackObject {
    pub name: Option<String>,
    pub album: Option<AlbumObject>,
    pub artists: Vec<ArtistObject>,
    pub external_urls: Option<ExternalUrls>,
    pub id: Option<String>,
}

/// The album that a track is on.
#[derive(Debug)]
pub struct AlbumObject {
    pub name: Option<String>,
    pub images: Vec<ImageObject>,
}

/// An artist of a track.
#[derive(Debug)]
pub struct ArtistObject {
    pub name: Option<String>,
    pub id: Option<String>,
}

/// A cover image.
#[derive(Debug)]
pub struct ImageObject {
    pub url: Option<String>,
    pub height: Option<u32>,
    pub width: Option<u32>,
}

/// The addresses of a track.
#[derive(Debug)]
pub struct ExternalUrls {
    pub spotify: Option<String>,
}

/// An artist, as the artist endpoint describes it.
#[derive(Debug)]
pub struct FullArtistObject {
    pub id: String,
    pub name: Option<String>,
    pub genres: Vec<String>,
}

/// What the token endpoint grants.
#[derive(Debug)]
pub struct TokenResponse {
    pub access_token: String,
    pub token_type: Option<String>,
    pub expires_in: Option<u64>,
    pub scope: Option<String>,
}

} // verus!

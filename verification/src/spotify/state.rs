//! What the service remembers of Spotify between requests.

use crate::clock::{later_by, seconds_from, LATEST};
use crate::spotify::genres::ArtistGenres;
use crate::spotify::track::{track_views, SpotifyTrack, TrackView};
use vstd::prelude::*;

verus! {

/// How long artist lookups are left alone once Spotify has refused one.
pub const ARTIST_LOOKUP_COOLDOWN_SECS: u64 = 21_600;

/// An access token, and when it is to be replaced.
#[derive(Debug)]
pub struct TokenCacheEntry {
    pub access_token: String,
    pub expires_at: u128,
}

/// Recently played tracks, and when they were fetched.
#[derive(Debug)]
pub struct TracksCacheEntry {
    pub tracks: Vec<SpotifyTrack>,
    pub timestamp: u128,
}

/// The caches of the Spotify part of the service.
pub struct SpotifyCaches {
    pub token: Option<TokenCacheEntry>,
    pub tracks: Option<TracksCacheEntry>,
    /// Genres hardly ever change: they are kept as long as the process lives.
    pub artist_genres: ArtistGenres,
    /// Set when Spotify has refused artist lookups to this app.
    pub artist_lookup_disabled_until: Option<u128>,
}

/// The model of [`TokenCacheEntry`].
#[verifier::ext_equal]
pub struct TokenView {
    pub access_token: Seq<char>,
    pub expires_at: nat,
}

/// The model of [`TracksCacheEntry`].
#[verifier::ext_equal]
pub struct CachedTracks {
    pub tracks: Seq<TrackView>,
    pub stored_at: nat,
}

/// The model of [`SpotifyCaches`].
#[verifier::ext_equal]
pub struct CachesView {
    pub token: Option<TokenView>,
    pub tracks: Option<CachedTracks>,
    pub genres: Map<Seq<char>, Seq<Seq<char>>>,
    pub disabled_until: Option<nat>,
}

impl View for TokenCacheEntry {
    type V = TokenView;

    open spec fn view(&self) -> TokenView {
        TokenView { access_token: self.access_token@, expires_at: self.expires_at as nat }
    }
}

impl View for TracksCacheEntry {
    type V = CachedTracks;

    open spec fn view(&self) -> CachedTracks {
        CachedTracks { tracks: track_views(self.tracks@), stored_at: self.timestamp as nat }
    }
}

impl View for SpotifyCaches {
    type V = CachesView;

    open spec fn view(&self) -> CachesView {
        CachesView {
            token: match self.token {
                Some(entry) => Some(entry@),
                None => None,
            },
            tracks: match self.tracks {
                Some(entry) => Some(entry@),
                None => None,
            },
            genres: self.artist_genres@,
            disabled_until: match self.artist_lookup_disabled_until {
                Some(until) => Some(until as nat),
                None => None,
            },
        }
    }
}

/// Caches that hold nothing.
pub open spec fn no_caches() -> CachesView {
    CachesView { token: None, tracks: None, genres: Map::empty(), disabled_until: None }
}

impl SpotifyCaches {
    /// Empty caches.
    pub fn new() -> (r: SpotifyCaches)
        ensures
            r@ == no_caches(),
    {
        SpotifyCaches {
            token: None,
            tracks: None,
            artist_genres: ArtistGenres::new(),
            artist_lookup_disabled_until: None,
        }
    }
}

/// Artist lookups are in their cooldown.
pub open spec fn in_cooldown(caches: CachesView, now: nat) -> bool {
    caches.disabled_until matches Some(until) && now < until
}

/// Whether artist lookups are to be left alone.
pub fn artist_lookup_disabled(caches: &SpotifyCaches, now: u128) -> (r: bool)
    ensures
        r == in_cooldown(caches@, now as nat),
{
    match caches.artist_lookup_disabled_until {
        Some(until) => now < until,
        None => false,
    }
}

/// The caches once artist lookups were refused.
pub open spec fn cooling_down(caches: CachesView, now: nat) -> CachesView {
    CachesView {
        disabled_until: Some(later_by(now, ARTIST_LOOKUP_COOLDOWN_SECS as nat)),
        ..caches
    }
}

/// Leaves artist lookups alone for a while.
pub fn disable_artist_lookup(caches: &mut SpotifyCaches, now: u128)
    requires
        now <= LATEST,
    ensures
        final(caches)@ == cooling_down(old(caches)@, now as nat),
{
    caches.artist_lookup_disabled_until = Some(seconds_from(now, ARTIST_LOOKUP_COOLDOWN_SECS));
}

/// The caches without the access token.
pub open spec fn without_token(caches: CachesView) -> CachesView {
    CachesView { token: None, ..caches }
}

/// Forgets the access token.
pub fn invalidate_token_cache(caches: &mut SpotifyCaches)
    ensures
        final(caches)@ == without_token(old(caches)@),
{
    caches.token = None;
}

/// The caches without what may be out of date. Genres stay.
pub open spec fn cleared(caches: CachesView) -> CachesView {
    CachesView { token: None, tracks: None, disabled_until: None, ..caches }
}

/// Clears the Spotify caches, so that the next request is answered anew.
pub fn clear_caches(caches: &mut SpotifyCaches)
    ensures
        final(caches)@ == cleared(old(caches)@),
{
    invalidate_token_cache(caches);
    caches.tracks = None;
    caches.artist_lookup_disabled_until = None;
}

/// A refused lookup starts a cooldown that lasts six hours, no less and no more.
pub proof fn cooldown_lasts_six_hours(caches: CachesView, refused_at: nat, now: nat)
    ensures
        in_cooldown(cooling_down(caches, refused_at), now) <==> now < refused_at + 6 * 3600
            * 1_000_000_000,
{
}

/// Cleared caches serve no token and no tracks, and end the cooldown; what was
/// learned of artists is kept. To clear them twice is to clear them once.
pub proof fn clearing_keeps_genres_only(caches: CachesView, now: nat)
    ensures
        cleared(caches) == (CachesView { genres: caches.genres, ..no_caches() }),
        !in_cooldown(cleared(caches), now),
        cleared(cleared(caches)) == cleared(caches),
{
}

/// To forget the token, or to leave artist lookups alone, changes nothing else; and to
/// clear the caches keeps what is known of artists.
pub proof fn forgetting_is_limited(caches: CachesView, now: nat)
    ensures
        without_token(caches).token is None,
        without_token(caches).tracks == caches.tracks,
        without_token(caches).genres == caches.genres,
        without_token(caches).disabled_until == caches.disabled_until,
        cooling_down(caches, now).token == caches.token,
        cooling_down(caches, now).tracks == caches.tracks,
        cooling_down(caches, now).genres == caches.genres,
        cleared(caches).token is None,
        cleared(caches).tracks is None,
        cleared(caches).disabled_until is None,
        cleared(caches).genres == caches.genres,
{
}

/// Lookups are in their cooldown exactly until the time that is set, if one is.
pub proof fn the_cooldown_ends_when_it_is_set_to(caches: CachesView, until: nat, now: nat)
    ensures
        in_cooldown((CachesView { disabled_until: Some(until), ..caches }), now) <==> now < until,
        !in_cooldown((CachesView { disabled_until: None, ..caches }), now),
{
}

} // verus!

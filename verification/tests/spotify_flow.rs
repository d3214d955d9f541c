use static_feeds::clock::NANOS_PER_SEC;
use static_feeds::spotify::artists::{
    artist_url, fetch_single_artist, get_artists_with_genres, ArtistEvent, ArtistFetch, ArtistStep,
    GenresEvent, GenresStep,
};
use static_feeds::spotify::genres::ArtistGenres;
use static_feeds::spotify::model::{
    ArtistObject, FullArtistObject, PlayHistoryObject, TokenResponse, TrackObject,
};
use static_feeds::spotify::recent::{
    fetch_recently_played_raw, get_recently_played, recently_played_url, RawEvent, RawStep,
    RecentEvent, RecentStep,
};
use static_feeds::spotify::state::{
    artist_lookup_disabled, clear_caches, disable_artist_lookup, invalidate_token_cache,
    SpotifyCaches,
};
use static_feeds::spotify::token::{
    basic_authorization, get_access_token, is_revoked_grant, request_new_token, AccessEvent,
    AccessStep, Credentials, TokenEvent, TokenStep,
};
use static_feeds::spotify::track::SpotifyTrack;

const NOW: u128 = 1_772_186_400 * NANOS_PER_SEC;

fn granted(token: &str, expires_in: Option<u64>) -> TokenEvent {
    TokenEvent::Granted(Ok(TokenResponse {
        access_token: token.to_string(),
        token_type: None,
        expires_in,
        scope: None,
    }))
}

fn token_error(event: TokenEvent) -> String {
    match request_new_token(event) {
        TokenStep::Done(Err(e)) => e,
        _ => panic!("an error was expected"),
    }
}

fn played(name: &str, artist_id: &str) -> PlayHistoryObject {
    PlayHistoryObject {
        track: TrackObject {
            name: Some(name.to_string()),
            album: None,
            artists: vec![ArtistObject { name: None, id: Some(artist_id.to_string()) }],
            external_urls: None,
            id: None,
        },
        played_at: None,
    }
}

fn tracks(step: RecentStep) -> Vec<String> {
    match step {
        RecentStep::Done(Ok(list)) => {
            list.iter().map(|t: &SpotifyTrack| t.track_name.clone()).collect()
        }
        _ => panic!("tracks were expected"),
    }
}

fn recent_error(step: RecentStep) -> String {
    match step {
        RecentStep::Done(Err(e)) => e,
        _ => panic!("an error was expected"),
    }
}

fn comedy() -> Vec<String> {
    vec!["comedy".to_string()]
}

/// Genres of `c` (comedy) and `r` (rock), looked up and cached.
fn known() -> ArtistGenres {
    let mut genres = ArtistGenres::new();
    genres.insert("c".to_string(), vec!["comedy".to_string()]);
    genres.insert("r".to_string(), vec!["rock".to_string()]);
    genres
}

fn fill_tracks(caches: &mut SpotifyCaches, now: u128) -> RecentStep {
    let items = vec![played("A", "r"), played("B", "c"), played("C", "u"), played("D", "r")];
    let event = RecentEvent::Genres { items, genres: Ok(known()) };
    get_recently_played(caches, 2, &comedy(), now, event)
}

#[test]
fn revoked_grant_is_recognised() {
    assert!(is_revoked_grant(
        r#"{"error":"invalid_grant","error_description":"Refresh token revoked"}"#
    ));
    assert!(is_revoked_grant(
        r#"{"error":"invalid_grant","error_description":"Invalid refresh token"}"#
    ));
}

#[test]
fn other_token_failures_are_not_treated_as_revoked() {
    // A bad client secret is invalid_client, and needs a different fix.
    assert!(!is_revoked_grant(
        r#"{"error":"invalid_client","error_description":"Invalid client secret"}"#
    ));
    assert!(!is_revoked_grant(r#"{"error":"server_error"}"#));
    assert!(!is_revoked_grant(""));
}

#[test]
fn credentials_are_sent_in_base64() {
    assert_eq!(basic_authorization("id", "secret"), "Basic aWQ6c2VjcmV0");
    assert_eq!(basic_authorization("", ""), "Basic Og==");
    assert_eq!(basic_authorization("a", "b?ÿ~"), "Basic YTpiP8O/fg==");
}

#[test]
fn the_refresh_token_is_exchanged() {
    let event = TokenEvent::Start(Credentials {
        client_id: Some("id".to_string()),
        client_secret: Some("secret".to_string()),
        refresh_token: Some("r".to_string()),
    });
    match request_new_token(event) {
        TokenStep::Send(request) => {
            assert_eq!(request.url, "https://accounts.spotify.com/api/token");
            assert_eq!(request.authorization, "Basic aWQ6c2VjcmV0");
            assert_eq!(request.content_type, "application/x-www-form-urlencoded");
            assert_eq!(
                request.form,
                vec![
                    ("grant_type".to_string(), "refresh_token".to_string()),
                    ("refresh_token".to_string(), "r".to_string()),
                ]
            );
        }
        _ => panic!("a request was expected"),
    }
}

#[test]
fn missing_credentials_are_named() {
    let set = || Some("x".to_string());
    let cases = [
        (None, set(), None, "SPOTIFY_CLIENT_ID must be set."),
        (set(), None, None, "SPOTIFY_CLIENT_SECRET must be set."),
        (set(), set(), None, "SPOTIFY_REFRESH_TOKEN must be set."),
    ];
    for (client_id, client_secret, refresh_token, message) in cases {
        let credentials = Credentials { client_id, client_secret, refresh_token };
        assert_eq!(token_error(TokenEvent::Start(credentials)), message);
    }
}

#[test]
fn token_answers_are_read() {
    assert!(matches!(
        request_new_token(TokenEvent::Answered { status: 200 }),
        TokenStep::ParseGrant
    ));
    assert!(matches!(
        request_new_token(TokenEvent::Answered { status: 299 }),
        TokenStep::ParseGrant
    ));
    assert!(matches!(
        request_new_token(TokenEvent::Answered { status: 300 }),
        TokenStep::ReadRefusal { status: 300 }
    ));
    assert!(matches!(
        request_new_token(TokenEvent::Answered { status: 199 }),
        TokenStep::ReadRefusal { status: 199 }
    ));
    match request_new_token(granted("t", Some(1800))) {
        TokenStep::Done(Ok((token, lifetime))) => assert_eq!((token.as_str(), lifetime), ("t", 1800)),
        _ => panic!("a token was expected"),
    }
    match request_new_token(granted("t", None)) {
        TokenStep::Done(Ok((_, lifetime))) => assert_eq!(lifetime, 3600),
        _ => panic!("a token was expected"),
    }
}

#[test]
fn token_errors_say_what_went_wrong() {
    assert_eq!(
        token_error(TokenEvent::FormFailed("x".to_string())),
        "Failed to create request body: x"
    );
    assert_eq!(
        token_error(TokenEvent::Unreachable("dns".to_string())),
        "Failed to reach accounts.spotify.com: dns"
    );
    assert_eq!(
        token_error(TokenEvent::Granted(Err("eof".to_string()))),
        "Token refresh returned unparseable JSON: eof"
    );
    assert_eq!(
        token_error(TokenEvent::Refused { status: 503, body: None }),
        "Token refresh failed: HTTP 503 - Unknown error"
    );
    assert_eq!(
        token_error(TokenEvent::Refused { status: 400, body: Some(" invalid_client \n".to_string()) }),
        "Token refresh failed: HTTP 400 - invalid_client"
    );
    assert_eq!(
        token_error(TokenEvent::Refused { status: 400, body: Some("invalid_grant".to_string()) }),
        "Refresh token is no longer valid (HTTP 400 - invalid_grant). This needs a human: re-run \
         `python3 spotify_reauth.py --write-env` as the account owner and restart the service."
    );
    let long = "é".repeat(501);
    let message = token_error(TokenEvent::Refused { status: 500, body: Some(long) });
    assert_eq!(message, format!("Token refresh failed: HTTP 500 - {}…", "é".repeat(500)));
}

#[test]
fn a_token_is_used_until_a_minute_before_it_expires() {
    let mut caches = SpotifyCaches::new();
    assert!(matches!(
        get_access_token(&mut caches, NOW, AccessEvent::Start),
        AccessStep::RequestToken
    ));
    let event = AccessEvent::Requested(Ok(("t1".to_string(), 3600)));
    match get_access_token(&mut caches, NOW, event) {
        AccessStep::Done(Ok(token)) => assert_eq!(token, "t1"),
        _ => panic!("a token was expected"),
    }
    let last = NOW + 3540 * NANOS_PER_SEC - 1;
    match get_access_token(&mut caches, last, AccessEvent::Start) {
        AccessStep::Done(Ok(token)) => assert_eq!(token, "t1"),
        _ => panic!("the cached token was expected"),
    }
    assert!(matches!(
        get_access_token(&mut caches, last + 1, AccessEvent::Start),
        AccessStep::RequestToken
    ));
    invalidate_token_cache(&mut caches);
    assert!(matches!(
        get_access_token(&mut caches, NOW, AccessEvent::Start),
        AccessStep::RequestToken
    ));
}

#[test]
fn a_token_is_used_for_half_a_minute_at_least() {
    for expires_in in [0, 59, 60, 89, 90] {
        let mut caches = SpotifyCaches::new();
        let event = AccessEvent::Requested(Ok(("t".to_string(), expires_in)));
        get_access_token(&mut caches, NOW, event);
        assert_eq!(caches.token.unwrap().expires_at, NOW + 30 * NANOS_PER_SEC);
    }
}

#[test]
fn a_refused_token_is_not_cached() {
    let mut caches = SpotifyCaches::new();
    match get_access_token(&mut caches, NOW, AccessEvent::Requested(Err("no".to_string()))) {
        AccessStep::Done(Err(e)) => assert_eq!(e, "no"),
        _ => panic!("an error was expected"),
    }
    assert!(caches.token.is_none());
}

#[test]
fn a_stale_token_is_replaced_once() {
    assert_eq!(
        recently_played_url(25),
        "https://api.spotify.com/v1/me/player/recently-played?limit=25"
    );
    let mut caches = SpotifyCaches::new();
    get_access_token(&mut caches, NOW, AccessEvent::Requested(Ok(("old".to_string(), 3600))));

    assert!(matches!(
        fetch_recently_played_raw(&mut caches, 25, RawEvent::Start),
        RawStep::GetToken { retried: false }
    ));
    let event = RawEvent::Token { retried: false, token: Ok("old".to_string()) };
    match fetch_recently_played_raw(&mut caches, 25, event) {
        RawStep::Send { retried, url, authorization } => {
            assert!(!retried);
            assert_eq!(url, recently_played_url(25));
            assert_eq!(authorization, "Bearer old");
        }
        _ => panic!("a request was expected"),
    }
    let event = RawEvent::Answered { retried: false, answer: Ok(401) };
    assert!(matches!(
        fetch_recently_played_raw(&mut caches, 25, event),
        RawStep::GetToken { retried: true }
    ));
    assert!(caches.token.is_none());
    let event = RawEvent::Answered { retried: true, answer: Ok(401) };
    assert!(matches!(
        fetch_recently_played_raw(&mut caches, 25, event),
        RawStep::ReadBody { status: 401 }
    ));
    let event = RawEvent::Body { status: 401, body: Ok("denied".to_string()) };
    match fetch_recently_played_raw(&mut caches, 25, event) {
        RawStep::Done(Ok((status, body))) => assert_eq!((status, body.as_str()), (401, "denied")),
        _ => panic!("the answer was expected"),
    }
}

#[test]
fn failures_of_the_history_request_are_told() {
    let mut caches = SpotifyCaches::new();
    let cases = vec![
        (
            RawEvent::Token { retried: true, token: Err("no token".to_string()) },
            "no token",
        ),
        (
            RawEvent::Answered { retried: false, answer: Err("dns".to_string()) },
            "Failed to reach api.spotify.com: dns",
        ),
        (
            RawEvent::Body { status: 200, body: Err("cut".to_string()) },
            "Failed to read recently-played body: cut",
        ),
    ];
    for (event, message) in cases {
        match fetch_recently_played_raw(&mut caches, 25, event) {
            RawStep::Done(Err(e)) => assert_eq!(e, message),
            _ => panic!("an error was expected"),
        }
    }
}

#[test]
fn an_artist_lookup_is_found_refused_or_failed() {
    assert_eq!(artist_url("06HL"), "https://api.spotify.com/v1/artists/06HL");
    let start = ArtistEvent::Start { artist_id: "06HL".to_string(), token: "t".to_string() };
    match fetch_single_artist(start) {
        ArtistStep::Send { url, authorization } => {
            assert_eq!(url, "https://api.spotify.com/v1/artists/06HL");
            assert_eq!(authorization, "Bearer t");
        }
        _ => panic!("a request was expected"),
    }
    assert!(matches!(
        fetch_single_artist(ArtistEvent::Answered { status: 200 }),
        ArtistStep::ParseArtist
    ));
    for status in [401, 403, 404, 410] {
        match fetch_single_artist(ArtistEvent::Answered { status }) {
            ArtistStep::Done(ArtistFetch::Unavailable(s)) => assert_eq!(s, status),
            _ => panic!("a refusal was expected"),
        }
    }
    for status in [400, 429, 500] {
        assert!(matches!(
            fetch_single_artist(ArtistEvent::Answered { status }),
            ArtistStep::Done(ArtistFetch::Failed)
        ));
    }
    assert!(matches!(
        fetch_single_artist(ArtistEvent::Unreachable),
        ArtistStep::Done(ArtistFetch::Failed)
    ));
    assert!(matches!(
        fetch_single_artist(ArtistEvent::Parsed(Err("eof".to_string()))),
        ArtistStep::Done(ArtistFetch::Failed)
    ));
    let artist = FullArtistObject {
        id: "a".to_string(),
        name: None,
        genres: vec!["pop".to_string()],
    };
    match fetch_single_artist(ArtistEvent::Parsed(Ok(artist))) {
        ArtistStep::Done(ArtistFetch::Found(id, genres)) => {
            assert_eq!(id, "a");
            assert_eq!(genres, vec!["pop"]);
        }
        _ => panic!("an artist was expected"),
    }
}

#[test]
fn get_artists_with_genres_empty_returns_empty() {
    let mut caches = SpotifyCaches::new();
    let event = GenresEvent::Start { artist_ids: vec![] };
    match get_artists_with_genres(&mut caches, NOW, event) {
        GenresStep::Done(result) => assert!(result.is_empty()),
        _ => panic!("no lookup was expected"),
    }
}

#[test]
fn only_unknown_artists_are_asked_for() {
    let mut caches = SpotifyCaches::new();
    caches.artist_genres.insert("a".to_string(), vec!["pop".to_string()]);
    let ids = vec!["b".to_string(), "a".to_string(), "c".to_string()];
    let event = GenresEvent::Start { artist_ids: ids };
    let known = match get_artists_with_genres(&mut caches, NOW, event) {
        GenresStep::LookUp { known, artist_ids } => {
            assert_eq!(artist_ids, vec!["b", "c"]);
            assert_eq!(known.get("a"), Some(&vec!["pop".to_string()]));
            known
        }
        _ => panic!("a lookup was expected"),
    };
    let outcomes = vec![
        ArtistFetch::Failed,
        ArtistFetch::Found("b".to_string(), vec!["soul".to_string()]),
    ];
    match get_artists_with_genres(&mut caches, NOW, GenresEvent::LookedUp { known, outcomes }) {
        GenresStep::Done(genres) => {
            assert_eq!(genres.get("a"), Some(&vec!["pop".to_string()]));
            assert_eq!(genres.get("b"), Some(&vec!["soul".to_string()]));
            assert!(genres.get("c").is_none());
        }
        _ => panic!("genres were expected"),
    }
    assert!(!artist_lookup_disabled(&caches, NOW));
    // What was found is known from now on.
    let event = GenresEvent::Start { artist_ids: vec!["a".to_string(), "b".to_string()] };
    assert!(matches!(get_artists_with_genres(&mut caches, NOW, event), GenresStep::Done(_)));
}

#[test]
fn a_refusal_stops_lookups_for_six_hours() {
    let mut caches = SpotifyCaches::new();
    let outcomes = vec![
        ArtistFetch::Unavailable(403),
        ArtistFetch::Found("b".to_string(), vec![]),
    ];
    let event = GenresEvent::LookedUp { known: ArtistGenres::new(), outcomes };
    get_artists_with_genres(&mut caches, NOW, event);
    let last = NOW + 21_600 * NANOS_PER_SEC - 1;
    assert!(artist_lookup_disabled(&caches, last));
    assert!(!artist_lookup_disabled(&caches, last + 1));

    let event = GenresEvent::Start { artist_ids: vec!["a".to_string()] };
    match get_artists_with_genres(&mut caches, last, event) {
        GenresStep::Done(genres) => assert!(genres.is_empty()),
        _ => panic!("no lookup was expected"),
    }
    let event = GenresEvent::Start { artist_ids: vec!["a".to_string()] };
    assert!(matches!(
        get_artists_with_genres(&mut caches, last + 1, event),
        GenresStep::LookUp { .. }
    ));
}

#[test]
fn clearing_keeps_what_was_learned_of_artists() {
    let mut caches = SpotifyCaches::new();
    caches.artist_genres.insert("a".to_string(), vec!["pop".to_string()]);
    get_access_token(&mut caches, NOW, AccessEvent::Requested(Ok(("t".to_string(), 3600))));
    fill_tracks(&mut caches, NOW);
    disable_artist_lookup(&mut caches, NOW);
    clear_caches(&mut caches);
    assert!(caches.token.is_none());
    assert!(caches.tracks.is_none());
    assert!(!artist_lookup_disabled(&caches, NOW));
    assert_eq!(caches.artist_genres.get("a"), Some(&vec!["pop".to_string()]));
}

#[test]
fn the_history_is_fetched_parsed_and_filtered() {
    let mut caches = SpotifyCaches::new();
    assert!(matches!(
        get_recently_played(&mut caches, 2, &comedy(), NOW, RecentEvent::Start),
        RecentStep::Fetch { limit: 25 }
    ));
    let event = RecentEvent::Fetched(Ok((200, "{}".to_string())));
    match get_recently_played(&mut caches, 2, &comedy(), NOW, event) {
        RecentStep::Parse { body } => assert_eq!(body, "{}"),
        _ => panic!("the body was to be parsed"),
    }
    let items = vec![Ok(played("A", "r")), Err("bad".to_string()), Ok(played("B", "r"))];
    let event = RecentEvent::Parsed { body: "{}".to_string(), items: Ok(items) };
    match get_recently_played(&mut caches, 2, &comedy(), NOW, event) {
        RecentStep::LookUpGenres { items, artist_ids } => {
            assert_eq!(items.len(), 2);
            assert_eq!(artist_ids, vec!["r"]);
        }
        _ => panic!("the genres were to be looked up"),
    }
    assert_eq!(tracks(fill_tracks(&mut caches, NOW)), vec!["A", "C"]);
}

#[test]
fn tracks_are_cached_for_a_quarter_of_an_hour() {
    let mut caches = SpotifyCaches::new();
    fill_tracks(&mut caches, NOW);
    let last = NOW + 900 * NANOS_PER_SEC - 1;
    // Also those that the limit of the first request cut off.
    let step = get_recently_played(&mut caches, 9, &comedy(), last, RecentEvent::Start);
    assert_eq!(tracks(step), vec!["A", "C", "D"]);
    let step = get_recently_played(&mut caches, 0, &comedy(), last, RecentEvent::Start);
    assert!(tracks(step).is_empty());
    assert!(matches!(
        get_recently_played(&mut caches, 9, &comedy(), last + 1, RecentEvent::Start),
        RecentStep::Fetch { limit: 25 }
    ));
    // A clock that went back serves nothing either.
    assert!(matches!(
        get_recently_played(&mut caches, 9, &comedy(), NOW - 1, RecentEvent::Start),
        RecentStep::Fetch { limit: 25 }
    ));
    clear_caches(&mut caches);
    assert!(matches!(
        get_recently_played(&mut caches, 9, &comedy(), NOW, RecentEvent::Start),
        RecentStep::Fetch { limit: 25 }
    ));
}

#[test]
fn failures_of_recently_played_are_told_and_not_cached() {
    let mut caches = SpotifyCaches::new();
    let event = RecentEvent::Fetched(Err("down".to_string()));
    assert_eq!(recent_error(get_recently_played(&mut caches, 2, &comedy(), NOW, event)), "down");
    let event = RecentEvent::Fetched(Ok((403, " Forbidden ".to_string())));
    assert_eq!(
        recent_error(get_recently_played(&mut caches, 2, &comedy(), NOW, event)),
        "Failed to get recently played tracks: HTTP 403 - Forbidden"
    );
    let event = RecentEvent::Parsed { body: "x".repeat(501), items: Err("eof".to_string()) };
    assert_eq!(
        recent_error(get_recently_played(&mut caches, 2, &comedy(), NOW, event)),
        format!(
            "Failed to parse recently-played response: eof - body: {}…",
            "x".repeat(500)
        )
    );
    assert!(caches.tracks.is_none());
}

#[test]
fn an_outage_of_the_genre_lookup_shows_every_track() {
    let mut caches = SpotifyCaches::new();
    let items = vec![played("A", "c"), played("B", "c")];
    let event = RecentEvent::Genres { items, genres: Ok(ArtistGenres::new()) };
    let step = get_recently_played(&mut caches, 5, &comedy(), NOW, event);
    assert_eq!(tracks(step), vec!["A", "B"]);

    // Nor does the want of a token for the lookup cost a track.
    let items = vec![played("C", "c"), played("D", "c")];
    let event = RecentEvent::Genres { items, genres: Err("no token".to_string()) };
    let step = get_recently_played(&mut caches, 1, &comedy(), NOW, event);
    assert_eq!(tracks(step), vec!["C"]);
    let step = get_recently_played(&mut caches, 5, &comedy(), NOW, RecentEvent::Start);
    assert_eq!(tracks(step), vec!["C", "D"]);
}

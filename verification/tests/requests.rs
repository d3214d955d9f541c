use static_feeds::aggregator::{
    combine, get_aggregated_data, AggregateEvent, AggregateStep, AggregationErrors,
};
use static_feeds::auth::{bearer_authorization, validate_api_key};
use static_feeds::clock::NANOS_PER_SEC;
use static_feeds::letterboxd::fetch::{
    fetch_letterboxd_feed, FeedCache, FeedEvent, FeedSettings, FeedStep,
};
use static_feeds::letterboxd::handler::{get_letterboxd_movies, MoviesEvent, MoviesStep};
use static_feeds::query::{find_value, parse_options, read_options};
use static_feeds::reply::{reject, Reply, ReplyBody};
use static_feeds::spotify::handler::{get_spotify_tracks, TracksEvent, TracksStep};
use static_feeds::spotify::state::{SpotifyCaches, TracksCacheEntry};
use static_feeds::spotify::track::SpotifyTrack;
use static_feeds::text::{snippet, split, to_decimal};
use static_feeds::url_handlers::{get_urls, log_url, UrlLog};

const NOW: u128 = 1_772_186_400 * NANOS_PER_SEC;
const KEY: &str = "k3y";
const FEED: &str = "https://letterboxd.com/atropos_Dad/rss";
const SETTINGS: FeedSettings = FeedSettings { movies_limit: 5, cache_secs: 3600 };

fn authorized() -> Option<String> {
    Some("Bearer k3y".to_string())
}

fn track(name: &str) -> SpotifyTrack {
    SpotifyTrack {
        track_name: name.to_string(),
        artist: String::new(),
        album_name: String::new(),
        played_at: String::new(),
        spotify_url: String::new(),
        album_image_url: None,
        genres: vec![],
    }
}

fn cached_tracks() -> SpotifyCaches {
    let mut caches = SpotifyCaches::new();
    caches.tracks = Some(TracksCacheEntry { tracks: vec![track("A")], timestamp: NOW });
    caches
}

fn cached_feed(url: &str) -> FeedCache {
    let mut feeds = FeedCache::new();
    feeds.store(url, vec![], NOW);
    feeds
}

fn is_cached(feeds: &mut FeedCache, url: &str) -> bool {
    let step = fetch_letterboxd_feed(feeds, url, SETTINGS, NOW, FeedEvent::Start);
    matches!(step, FeedStep::Done(Ok(_)))
}

fn assert_unauthorized(reply: &Reply) {
    assert_eq!(reply.status, 401);
    assert_eq!(reply.cache_control, "no-store");
    match &reply.body {
        ReplyBody::Error { error, detail } => {
            assert_eq!(error, "Invalid or missing API key");
            assert!(detail.is_none());
        }
        _ => panic!("an error was expected"),
    }
}

#[test]
fn the_api_key_is_a_bearer_token() {
    assert_eq!(bearer_authorization("abc"), "Bearer abc");
    assert!(validate_api_key(&authorized(), KEY));
    assert!(!validate_api_key(&None, KEY));
    assert!(!validate_api_key(&Some("k3y".to_string()), KEY));
    assert!(!validate_api_key(&Some("bearer k3y".to_string()), KEY));
    assert!(!validate_api_key(&Some("Bearer k3y ".to_string()), KEY));
    assert_unauthorized(&reject());
}

#[test]
fn numbers_are_written_in_decimal() {
    assert_eq!(to_decimal(0), "0");
    assert_eq!(to_decimal(9), "9");
    assert_eq!(to_decimal(1234567890), "1234567890");
    assert_eq!(to_decimal(u64::MAX), "18446744073709551615");
}

#[test]
fn texts_are_split_at_separators() {
    assert_eq!(split("a,b,,c", ','), vec!["a", "b", "", "c"]);
    assert_eq!(split("", ','), vec![""]);
    assert_eq!(split(",", ','), vec!["", ""]);
    assert_eq!(split("äöü", 'ö'), vec!["ä", "ü"]);
}

#[test]
fn bodies_are_trimmed_and_cut() {
    assert_eq!(snippet("  body\n", 4), "body");
    assert_eq!(snippet("  body\n", 3), "bod…");
    assert_eq!(snippet("ÄÖÜ", 2), "ÄÖ…");
    assert_eq!(snippet("x", 0), "…");
    assert_eq!(snippet(" \t ", 0), "");
}

#[test]
fn query_strings_are_decoded() {
    let options = parse_options("feed_url=https%3A%2F%2Fexample.org%2Fa+b&limit=12&no_cache=true");
    assert_eq!(options.feed_url.as_deref(), Some("https://example.org/a b"));
    assert_eq!(options.limit, Some(12));
    assert!(options.no_cache);

    let options = parse_options("");
    assert_eq!(options.feed_url, None);
    assert_eq!(options.limit, None);
    assert!(!options.no_cache);
}

#[test]
fn the_first_parameter_of_a_name_counts() {
    let options = parse_options("limit=x&limit=3&no_cache=1&no_cache=true&feed_url=&feed_url=b");
    assert_eq!(options.limit, None);
    assert!(!options.no_cache);
    assert_eq!(options.feed_url.as_deref(), Some(""));
    let pairs = vec![
        ("a".to_string(), "1".to_string()),
        ("b".to_string(), "2".to_string()),
        ("b".to_string(), "3".to_string()),
    ];
    assert_eq!(find_value(&pairs, "b").as_deref(), Some("2"));
    assert_eq!(find_value(&pairs, "c"), None);
}

#[test]
fn limits_are_decimal_numbers() {
    let limit = |value: &str| {
        read_options(&vec![("limit".to_string(), value.to_string())]).limit
    };
    assert_eq!(limit("0"), Some(0));
    assert_eq!(limit("007"), Some(7));
    assert_eq!(limit("+5"), Some(5));
    assert_eq!(limit("18446744073709551615"), Some(usize::MAX));
    for bad in ["", "+", "-1", " 5", "5 ", "5.0", "0x5", "٥", "18446744073709551616"] {
        assert_eq!(limit(bad), None);
    }
}

#[test]
fn tracks_need_the_api_key() {
    let mut caches = cached_tracks();
    let event = TracksEvent::Request { authorization: None, query: "no_cache=true".to_string() };
    match get_spotify_tracks(&mut caches, KEY, event) {
        TracksStep::Respond(reply) => assert_unauthorized(&reply),
        _ => panic!("an answer was expected"),
    }
    assert!(caches.tracks.is_some());
}

#[test]
fn five_tracks_are_shown_by_default() {
    let mut caches = cached_tracks();
    let event = TracksEvent::Request { authorization: authorized(), query: String::new() };
    assert!(matches!(
        get_spotify_tracks(&mut caches, KEY, event),
        TracksStep::Fetch { limit: 5 }
    ));
    assert!(caches.tracks.is_some());
    let query = "limit=2&no_cache=true".to_string();
    let event = TracksEvent::Request { authorization: authorized(), query };
    assert!(matches!(
        get_spotify_tracks(&mut caches, KEY, event),
        TracksStep::Fetch { limit: 2 }
    ));
    assert!(caches.tracks.is_none());
}

#[test]
fn tracks_are_answered_or_the_reason_why_not() {
    let mut caches = SpotifyCaches::new();
    match get_spotify_tracks(&mut caches, KEY, TracksEvent::Fetched(Ok(vec![track("A")]))) {
        TracksStep::Respond(reply) => {
            assert_eq!(reply.status, 200);
            assert_eq!(reply.cache_control, "no-store");
            match reply.body {
                ReplyBody::Tracks(tracks) => assert_eq!(tracks[0].track_name, "A"),
                _ => panic!("tracks were expected"),
            }
        }
        _ => panic!("an answer was expected"),
    }
    match get_spotify_tracks(&mut caches, KEY, TracksEvent::Fetched(Err("down".to_string()))) {
        TracksStep::Respond(reply) => {
            assert_eq!(reply.status, 500);
            match reply.body {
                ReplyBody::Error { error, detail } => {
                    assert_eq!(error, "Could not load recently played tracks.");
                    assert_eq!(detail.as_deref(), Some("down"));
                }
                _ => panic!("an error was expected"),
            }
        }
        _ => panic!("an answer was expected"),
    }
}

#[test]
fn movies_need_the_api_key() {
    let mut feeds = cached_feed(FEED);
    let authorization = Some("Bearer other".to_string());
    let event = MoviesEvent::Request { authorization, query: "no_cache=true".to_string() };
    match get_letterboxd_movies(&mut feeds, KEY, FEED, event) {
        MoviesStep::Respond(reply) => assert_unauthorized(&reply),
        _ => panic!("an answer was expected"),
    }
    assert!(is_cached(&mut feeds, FEED));
}

#[test]
fn a_request_may_name_its_feed() {
    let mut feeds = cached_feed(FEED);
    feeds.store("https://other/rss", vec![], NOW);
    let event = MoviesEvent::Request { authorization: authorized(), query: String::new() };
    match get_letterboxd_movies(&mut feeds, KEY, FEED, event) {
        MoviesStep::Fetch { feed_url } => assert_eq!(feed_url, FEED),
        _ => panic!("a fetch was expected"),
    }
    assert!(is_cached(&mut feeds, FEED));
    let query = "feed_url=https://other/rss&no_cache=true".to_string();
    let event = MoviesEvent::Request { authorization: authorized(), query };
    match get_letterboxd_movies(&mut feeds, KEY, FEED, event) {
        MoviesStep::Fetch { feed_url } => assert_eq!(feed_url, "https://other/rss"),
        _ => panic!("a fetch was expected"),
    }
    assert!(is_cached(&mut feeds, FEED));
    assert!(!is_cached(&mut feeds, "https://other/rss"));
}

#[test]
fn movies_are_answered_or_that_there_are_none() {
    let mut feeds = FeedCache::new();
    match get_letterboxd_movies(&mut feeds, KEY, FEED, MoviesEvent::Fetched(Ok(vec![]))) {
        MoviesStep::Respond(reply) => {
            assert_eq!(reply.status, 200);
            assert_eq!(reply.cache_control, "no-store");
            assert!(matches!(reply.body, ReplyBody::Movies(movies) if movies.is_empty()));
        }
        _ => panic!("an answer was expected"),
    }
    let event = MoviesEvent::Fetched(Err("dns".to_string()));
    match get_letterboxd_movies(&mut feeds, KEY, FEED, event) {
        MoviesStep::Respond(reply) => {
            assert_eq!(reply.status, 500);
            match reply.body {
                ReplyBody::Error { error, detail } => {
                    assert_eq!(error, "Could not load watched movies.");
                    assert!(detail.is_none());
                }
                _ => panic!("an error was expected"),
            }
        }
        _ => panic!("an answer was expected"),
    }
}

#[test]
fn the_last_five_urls_are_kept() {
    let mut log = UrlLog::new();
    for n in 1..=7 {
        let reply = log_url(&mut log, KEY, &authorized(), format!("url{}", n));
        assert_eq!(reply.status, 200);
        assert!(matches!(reply.body, ReplyBody::Empty));
    }
    let reply = get_urls(&log, KEY, &authorized());
    assert_eq!(reply.status, 200);
    assert_eq!(reply.cache_control, "no-store");
    match reply.body {
        ReplyBody::Urls(urls) => assert_eq!(urls, vec!["url3", "url4", "url5", "url6", "url7"]),
        _ => panic!("URLs were expected"),
    }
}

#[test]
fn urls_need_the_api_key() {
    let mut log = UrlLog::new();
    log.record("url1".to_string());
    assert_unauthorized(&log_url(&mut log, KEY, &None, "url2".to_string()));
    assert_unauthorized(&get_urls(&log, KEY, &Some("k3y".to_string())));
    assert_eq!(log.urls(), vec!["url1"]);
}

#[test]
fn the_aggregate_needs_no_key() {
    let mut caches = cached_tracks();
    let mut feeds = cached_feed(FEED);
    let mut log = UrlLog::new();
    log.record("url1".to_string());
    let event = AggregateEvent::Request { query: String::new() };
    match get_aggregated_data(&mut caches, &mut feeds, &log, event) {
        AggregateStep::Fetch { urls, feed_url, limit } => {
            assert_eq!(urls, vec!["url1"]);
            assert_eq!(feed_url, FEED);
            assert_eq!(limit, 5);
        }
        _ => panic!("a fetch was expected"),
    }
    assert!(caches.tracks.is_some());
    assert!(is_cached(&mut feeds, FEED));
}

#[test]
fn the_aggregate_bypasses_every_cache() {
    let mut caches = cached_tracks();
    let mut feeds = cached_feed(FEED);
    let query = "no_cache=true&limit=3".to_string();
    let event = AggregateEvent::Request { query };
    match get_aggregated_data(&mut caches, &mut feeds, &UrlLog::new(), event) {
        AggregateStep::Fetch { urls, feed_url, limit } => {
            assert!(urls.is_empty());
            assert_eq!(feed_url, FEED);
            assert_eq!(limit, 3);
        }
        _ => panic!("a fetch was expected"),
    }
    assert!(caches.tracks.is_none());
    assert!(!is_cached(&mut feeds, FEED));
}

#[test]
fn the_aggregate_names_the_sources_that_failed() {
    let data = combine(vec!["u".to_string()], Ok(vec![]), Ok(vec![track("A")]));
    assert_eq!(data.urls, vec!["u"]);
    assert_eq!(data.tracks.len(), 1);
    assert!(data.errors.is_none());

    let data = combine(vec![], Ok(vec![]), Err("HTTP 403".to_string()));
    assert!(data.tracks.is_empty());
    let errors = data.errors.unwrap();
    assert_eq!(errors.spotify.as_deref(), Some("HTTP 403"));
    assert!(errors.letterboxd.is_none());

    let data = combine(vec![], Err("dns".to_string()), Ok(vec![track("A")]));
    assert!(data.movies.is_empty());
    assert_eq!(data.tracks.len(), 1);
    let errors = data.errors.unwrap();
    assert_eq!(errors.letterboxd.as_deref(), Some("dns"));
    assert!(errors.spotify.is_none());
    assert!(!errors.is_empty());
    assert!(AggregationErrors { letterboxd: None, spotify: None }.is_empty());
}

#[test]
fn the_aggregate_is_always_answered() {
    let mut caches = SpotifyCaches::new();
    let mut feeds = FeedCache::new();
    let event = AggregateEvent::Fetched {
        urls: vec!["u".to_string()],
        movies: Err("dns".to_string()),
        tracks: Err("down".to_string()),
    };
    match get_aggregated_data(&mut caches, &mut feeds, &UrlLog::new(), event) {
        AggregateStep::Respond(reply) => {
            assert_eq!(reply.status, 200);
            assert_eq!(reply.cache_control, "no-store, max-age=0");
            match reply.body {
                ReplyBody::Aggregated(data) => {
                    assert_eq!(data.urls, vec!["u"]);
                    let errors = data.errors.unwrap();
                    assert_eq!(errors.letterboxd.as_deref(), Some("dns"));
                    assert_eq!(errors.spotify.as_deref(), Some("down"));
                }
                _ => panic!("data was expected"),
            }
        }
        _ => panic!("an answer was expected"),
    }
}

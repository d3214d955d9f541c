use serde_json::Value;
use static_feeds::spotify::diagnose::first_artist_id;
use static_feeds::spotify::genres::ArtistGenres;
use static_feeds::spotify::history::{artist_ids, parse_play_history, unique_artist_ids};
use static_feeds::spotify::model::{
    AlbumObject, ArtistObject, ExternalUrls, ImageObject, PlayHistoryObject, TrackObject,
};
use static_feeds::spotify::track::{build_tracks, filter_tracks, to_spotify_track, SpotifyTrack};

fn text(value: &Value, key: &str) -> Option<String> {
    value.get(key).and_then(Value::as_str).map(str::to_string)
}

fn list<'a>(value: &'a Value, key: &str) -> &'a [Value] {
    value.get(key).and_then(Value::as_array).map_or(&[], Vec::as_slice)
}

fn number(value: &Value, key: &str) -> Option<u32> {
    value.get(key).and_then(Value::as_u64).map(|n| n as u32)
}

/// An entry of the history, out of the JSON that stands for it.
fn entry(raw: &Value) -> Result<PlayHistoryObject, String> {
    let track = raw.get("track").ok_or("missing field `track`")?;
    if !track.is_object() {
        return Err("invalid type: expected struct TrackObject".to_string());
    }
    let artist = |a: &Value| ArtistObject { name: text(a, "name"), id: text(a, "id") };
    let image = |i: &Value| ImageObject {
        url: text(i, "url"),
        height: number(i, "height"),
        width: number(i, "width"),
    };
    Ok(PlayHistoryObject {
        track: TrackObject {
            name: text(track, "name"),
            album: track.get("album").map(|a| AlbumObject {
                name: text(a, "name"),
                images: list(a, "images").iter().map(image).collect(),
            }),
            artists: list(track, "artists").iter().map(artist).collect(),
            external_urls: track
                .get("external_urls")
                .map(|u| ExternalUrls { spotify: text(u, "spotify") }),
            id: text(track, "id"),
        },
        played_at: text(raw, "played_at"),
    })
}

fn artist(name: &str, id: Option<&str>) -> ArtistObject {
    ArtistObject { name: Some(name.to_string()), id: id.map(str::to_string) }
}

fn played(name: Option<&str>, artists: Vec<ArtistObject>) -> PlayHistoryObject {
    PlayHistoryObject {
        track: TrackObject {
            name: name.map(str::to_string),
            album: None,
            artists,
            external_urls: None,
            id: None,
        },
        played_at: None,
    }
}

fn names(tracks: &[SpotifyTrack]) -> Vec<&str> {
    tracks.iter().map(|t| t.track_name.as_str()).collect()
}

#[test]
fn play_history_parses_minimal_item() {
    let raw: Value = serde_json::from_str(r#"{
        "track": {
            "name": "Song",
            "album": { "name": "Album", "images": [{ "url": "https://i.scdn.co/image/x" }] },
            "artists": [{ "name": "Artist", "id": "a1" }],
            "external_urls": { "spotify": "https://open.spotify.com/track/t1" },
            "id": "t1"
        },
        "played_at": "2026-02-27T10:00:00Z"
    }"#).unwrap();

    let (items, skipped, err) = parse_play_history(vec![entry(&raw)]);
    assert_eq!(skipped, 0);
    assert!(err.is_none());
    assert_eq!(items.len(), 1);

    let track = to_spotify_track(&items[0], &ArtistGenres::new()).unwrap();
    assert_eq!(track.track_name, "Song");
    assert_eq!(track.artist, "Artist");
    assert_eq!(track.spotify_url, "https://open.spotify.com/track/t1");
    assert_eq!(track.album_image_url.as_deref(), Some("https://i.scdn.co/image/x"));
    assert_eq!(track.album_name, "Album");
    assert_eq!(track.played_at, "2026-02-27T10:00:00Z");
    assert!(track.genres.is_empty());
}

#[test]
fn play_history_tolerates_null_image_dimensions() {
    let raw: Value = serde_json::from_str(r#"{
        "track": {
            "name": "Song",
            "album": { "name": "Album", "images": [{ "url": "https://i.scdn.co/image/x", "height": null, "width": null }] },
            "artists": [{ "name": "Artist", "id": "a1" }],
            "external_urls": { "spotify": "https://open.spotify.com/track/t1" },
            "id": "t1"
        },
        "played_at": "2026-02-27T10:00:00Z"
    }"#).unwrap();

    let (items, skipped, _) = parse_play_history(vec![entry(&raw)]);
    assert_eq!(skipped, 0);
    assert_eq!(items.len(), 1);
}

#[test]
fn play_history_tolerates_stripped_fields() {
    let raw: Value = serde_json::from_str(r#"{
        "track": { "name": "Song", "id": "t1" },
        "played_at": "2026-02-27T10:00:00Z"
    }"#).unwrap();

    let (items, skipped, _) = parse_play_history(vec![entry(&raw)]);
    assert_eq!(skipped, 0);

    let track = to_spotify_track(&items[0], &ArtistGenres::new()).unwrap();
    assert_eq!(track.track_name, "Song");
    // Falls back to a constructed URL when external_urls is absent.
    assert_eq!(track.spotify_url, "https://open.spotify.com/track/t1");
    assert_eq!(track.artist, "");
    assert!(track.album_image_url.is_none());
}

#[test]
fn an_image_without_an_address_costs_the_image_only() {
    let raw: Value = serde_json::from_str(r#"{
        "track": { "name": "Song", "album": { "images": [{ "height": 64 }] } }
    }"#).unwrap();

    let (items, skipped, _) = parse_play_history(vec![entry(&raw)]);
    assert_eq!(skipped, 0);
    let track = to_spotify_track(&items[0], &ArtistGenres::new()).unwrap();
    assert_eq!(track.track_name, "Song");
    assert!(track.album_image_url.is_none());
}

#[test]
fn play_history_skips_only_the_bad_item() {
    let good: Value = serde_json::from_str(r#"{
        "track": { "name": "Good", "id": "t1" },
        "played_at": "2026-02-27T10:00:00Z"
    }"#).unwrap();
    let bad: Value = serde_json::from_str(r#"{ "track": "not-an-object" }"#).unwrap();

    let (items, skipped, err) = parse_play_history(vec![entry(&bad), entry(&good)]);
    assert_eq!(skipped, 1);
    assert_eq!(items.len(), 1);
    assert_eq!(items[0].track.name.as_deref(), Some("Good"));
    assert!(err.is_some());
}

#[test]
fn the_first_parse_error_is_told() {
    let entries = vec![
        Ok(played(Some("One"), vec![])),
        Err("first".to_string()),
        Err("second".to_string()),
        Ok(played(Some("Two"), vec![])),
    ];
    let (items, skipped, err) = parse_play_history(entries);
    assert_eq!(items.len(), 2);
    assert_eq!(skipped, 2);
    assert_eq!(err.as_deref(), Some("first"));
}

#[test]
fn a_track_without_a_name_is_not_shown() {
    assert!(to_spotify_track(&played(None, vec![]), &ArtistGenres::new()).is_none());
    let items = vec![played(Some("A"), vec![]), played(None, vec![]), played(Some("B"), vec![])];
    assert_eq!(names(&build_tracks(&items, &ArtistGenres::new())), vec!["A", "B"]);
}

#[test]
fn a_track_without_an_address_has_an_empty_one() {
    let track = to_spotify_track(&played(Some("A"), vec![]), &ArtistGenres::new()).unwrap();
    assert_eq!(track.spotify_url, "");
    assert_eq!(track.played_at, "");
    assert_eq!(track.album_name, "");
}

#[test]
fn the_first_artist_is_named_and_all_genres_are_shown() {
    let mut genres = ArtistGenres::new();
    genres.insert("a2".to_string(), vec!["soul".to_string(), "funk".to_string()]);
    let item = played(Some("Duet"), vec![artist("One", None), artist("Two", Some("a2"))]);
    let track = to_spotify_track(&item, &genres).unwrap();
    assert_eq!(track.artist, "One");
    assert_eq!(track.genres, vec!["funk", "soul"]);
}

#[test]
fn artist_ids_come_once_and_in_order() {
    let items = vec![
        played(None, vec![artist("B", Some("b")), artist("?", None), artist("A", Some("a"))]),
        played(None, vec![artist("A", Some("a")), artist("C", Some("c"))]),
    ];
    assert_eq!(artist_ids(&items[0].track.artists), vec!["b", "a"]);
    assert_eq!(unique_artist_ids(&items), vec!["b", "a", "c"]);
    assert_eq!(first_artist_id(&items).as_deref(), Some("b"));
    assert_eq!(first_artist_id(&vec![played(None, vec![artist("?", None)])]), None);
}

#[test]
fn only_excluded_tracks_are_filtered_out() {
    let mut genres = ArtistGenres::new();
    genres.insert("c".to_string(), vec!["Stand-Up Comedy".to_string()]);
    genres.insert("r".to_string(), vec!["rock".to_string()]);
    let items = vec![
        played(Some("Joke"), vec![artist("C", Some("c"))]),
        played(Some("Riff"), vec![artist("R", Some("r"))]),
        played(Some("Hum"), vec![artist("U", Some("unknown"))]),
    ];
    let excluded = vec!["comedy".to_string()];
    assert_eq!(names(&filter_tracks(build_tracks(&items, &genres), &excluded)), vec!["Riff", "Hum"]);
    assert_eq!(
        names(&filter_tracks(build_tracks(&items, &genres), &vec![])),
        vec!["Joke", "Riff", "Hum"]
    );
    // An outage of the genre lookup filters nothing.
    assert_eq!(
        names(&filter_tracks(build_tracks(&items, &ArtistGenres::new()), &excluded)),
        vec!["Joke", "Riff", "Hum"]
    );
}

use static_feeds::spotify::genres::{
    aggregate_genres_for_track, matches_excluded, parse_excluded_genres, should_exclude_track,
    ArtistGenres,
};

fn strings(list: &[&str]) -> Vec<String> {
    list.iter().map(|s| s.to_string()).collect()
}

#[test]
fn aggregate_genres_deduplicates_and_sorts() {
    let mut artist_genres = ArtistGenres::new();
    artist_genres.insert("a1".to_string(), vec!["rock".to_string(), "indie".to_string()]);
    artist_genres.insert("a2".to_string(), vec!["rock".to_string(), "alternative".to_string()]);

    let result = aggregate_genres_for_track(
        &["a1".to_string(), "a2".to_string()],
        &artist_genres,
    );

    assert_eq!(result, vec!["alternative", "indie", "rock"]);
}

#[test]
fn aggregate_genres_handles_missing_artist() {
    let mut artist_genres = ArtistGenres::new();
    artist_genres.insert("a1".to_string(), vec!["pop".to_string()]);

    let result = aggregate_genres_for_track(
        &["a1".to_string(), "missing_id".to_string()],
        &artist_genres,
    );

    assert_eq!(result, vec!["pop"]);
}

#[test]
fn aggregate_genres_empty_input() {
    let artist_genres = ArtistGenres::new();
    let result = aggregate_genres_for_track(&[], &artist_genres);
    assert!(result.is_empty());
}

#[test]
fn genres_sort_by_code_points() {
    let mut artist_genres = ArtistGenres::new();
    artist_genres.insert("a".to_string(), strings(&["étude", "zouk", "Zydeco", "z", "zouk", ""]));
    let result = aggregate_genres_for_track(&strings(&["a", "a"]), &artist_genres);
    assert_eq!(result, strings(&["", "Zydeco", "z", "zouk", "étude"]));
}

#[test]
fn artist_genres_remember_the_last_insert() {
    let mut artist_genres = ArtistGenres::new();
    assert!(artist_genres.is_empty());
    assert!(artist_genres.get("a").is_none());
    artist_genres.insert("a".to_string(), strings(&["pop"]));
    artist_genres.insert("a".to_string(), strings(&["rock"]));
    assert!(!artist_genres.is_empty());
    assert_eq!(artist_genres.get("a"), Some(&strings(&["rock"])));
    assert!(artist_genres.get("b").is_none());
}

#[test]
fn should_exclude_matches_substring() {
    let genres = vec!["stand-up comedy".to_string(), "rock".to_string()];
    let excluded = vec!["comedy".to_string()];
    assert!(should_exclude_track(&genres, &excluded));
}

#[test]
fn should_exclude_no_match() {
    let genres = vec!["indie rock".to_string(), "alternative".to_string()];
    let excluded = vec!["comedy".to_string()];
    assert!(!should_exclude_track(&genres, &excluded));
}

#[test]
fn should_exclude_empty_excluded_list() {
    let genres = vec!["comedy".to_string()];
    let excluded: Vec<String> = vec![];
    assert!(!should_exclude_track(&genres, &excluded));
}

#[test]
fn should_exclude_reverse_substring_match() {
    // "comedy" excluded genre contains "com" track genre
    let genres = vec!["com".to_string()];
    let excluded = vec!["comedy".to_string()];
    assert!(should_exclude_track(&genres, &excluded));
}

#[test]
fn should_exclude_case_insensitive() {
    let genres = vec!["Stand-Up Comedy".to_string()];
    let excluded = vec!["comedy".to_string()];
    assert!(should_exclude_track(&genres, &excluded));
}

#[test]
fn empty_excluded_entry_never_matches_everything() {
    // An empty needle is a substring of every genre.
    let genres = vec!["indie rock".to_string()];
    let excluded = vec!["".to_string()];
    assert!(!should_exclude_track(&genres, &excluded));
}

#[test]
fn empty_track_genre_is_not_excluded() {
    let genres = vec!["".to_string()];
    let excluded = vec!["comedy".to_string()];
    assert!(!should_exclude_track(&genres, &excluded));
}

#[test]
fn white_space_around_a_genre_does_not_matter() {
    assert!(should_exclude_track(&strings(&["  COM\u{3000}"]), &strings(&["comedy"])));
    assert!(!should_exclude_track(&strings(&[" \t"]), &strings(&["comedy"])));
    assert!(!should_exclude_track(&[], &strings(&["comedy"])));
    assert!(should_exclude_track(&strings(&["pop"]), &strings(&["", "jazz", "pop"])));
}

#[test]
fn excluded_entries_are_compared_as_they_stand() {
    // The genre is in lower case by now; an entry in upper case matches nothing.
    assert!(!matches_excluded("comedy", &strings(&["COMEDY"])));
    assert!(matches_excluded("comedy", &strings(&["comedy"])));
    assert!(!matches_excluded("comedy", &[]));
}

#[test]
fn comedy_is_excluded_by_default() {
    assert_eq!(parse_excluded_genres(&None), strings(&["comedy"]));
}

#[test]
fn excluded_genres_are_trimmed_lowered_and_not_empty() {
    let set = Some(" Stand-Up Comedy ,, PODCAST,\u{a0},ÉTUDE".to_string());
    assert_eq!(parse_excluded_genres(&set), strings(&["stand-up comedy", "podcast", "étude"]));
    assert_eq!(parse_excluded_genres(&Some("comedy, ".to_string())), strings(&["comedy"]));
    assert_eq!(parse_excluded_genres(&Some(String::new())), strings(&[]));
}

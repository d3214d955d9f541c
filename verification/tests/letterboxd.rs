use static_feeds::clock::NANOS_PER_SEC;
use static_feeds::letterboxd::feed::{movies_of_feed, parse_feed, process_letterboxd_items};
use static_feeds::letterboxd::fetch::{
    after_answer, fetch_letterboxd_feed, FeedAnswer, FeedCache, FeedEvent, FeedSettings, FeedStep,
};
use static_feeds::letterboxd::item::{
    extract_extension_value, read_movie, FeedExtension, FeedItem,
};
use static_feeds::letterboxd::merge::{merge_into, merge_reviewed};
use static_feeds::letterboxd::movie::LetterboxdMovie;
use static_feeds::letterboxd::order::{is_more_recent, sort_by_recency, sorts_before};
use static_feeds::redirect::{absolute_location, choose_target, resolve_redirect};

const NOW: u128 = 1_772_186_400 * NANOS_PER_SEC;
const FEED: &str = "https://letterboxd.com/atropos_Dad/rss";
const SETTINGS: FeedSettings = FeedSettings { movies_limit: 5, cache_secs: 3600 };

const RSS: &str = r#"<?xml version="1.0" encoding="utf-8"?>
<rss version="2.0" xmlns:letterboxd="https://letterboxd.com">
  <channel>
    <title>Letterboxd - someone</title>
    <link>https://letterboxd.com/someone/</link>
    <description>Letterboxd - someone</description>
    <item>
      <title>Alien, 1979</title>
      <link>https://letterboxd.com/someone/film/alien/</link>
      <pubDate>Wed, 4 Feb 2026 10:00:00 +0000</pubDate>
      <letterboxd:filmTitle>Alien</letterboxd:filmTitle>
      <letterboxd:rewatch>Yes</letterboxd:rewatch>
      <description>Again.</description>
    </item>
    <item>
      <title>A list of mine</title>
      <link>https://letterboxd.com/someone/list/mine/</link>
    </item>
    <item>
      <title>Heat, 1995 - ★★★★</title>
      <link>https://letterboxd.com/someone/film/heat/</link>
      <pubDate>Fri, 6 Feb 2026 10:00:00 +0000</pubDate>
      <letterboxd:filmTitle>Heat</letterboxd:filmTitle>
      <letterboxd:memberRating>4.0</letterboxd:memberRating>
      <description>Long &amp; good.</description>
    </item>
    <item>
      <title>Alien, 1979 - ★★★★★</title>
      <link>https://letterboxd.com/someone/film/alien/1/</link>
      <pubDate>Thu, 1 Jan 2026 10:00:00 +0000</pubDate>
      <letterboxd:filmTitle>Alien</letterboxd:filmTitle>
      <letterboxd:memberRating>5.0</letterboxd:memberRating>
      <description>Perfect.</description>
    </item>
  </channel>
</rss>"#;

fn some(text: &str) -> Option<String> {
    Some(text.to_string())
}

fn extension(name: &str, values: Vec<Option<String>>) -> FeedExtension {
    FeedExtension { namespace: "letterboxd".to_string(), name: name.to_string(), values }
}

fn item(film: &str, date: Option<&str>) -> FeedItem {
    FeedItem {
        title: some(film),
        link: None,
        description: None,
        pub_date: date.map(str::to_string),
        extensions: vec![extension("filmTitle", vec![some(film)])],
    }
}

fn movie(title: &str, date: Option<&str>) -> LetterboxdMovie {
    LetterboxdMovie {
        title: title.to_string(),
        link: format!("link of {}", title),
        description: format!("review of {}", title),
        pub_date: date.map(str::to_string),
        film_title: some("Film"),
        rating: None,
        rewatch: None,
    }
}

fn titles(movies: &[LetterboxdMovie]) -> Vec<&str> {
    movies.iter().map(|m| m.title.as_str()).collect()
}

fn answer(status: u16, location: Option<&str>) -> Result<FeedAnswer, String> {
    Ok(FeedAnswer { status, location: location.map(str::to_string) })
}

fn requested(step: FeedStep) -> (String, u8) {
    match step {
        FeedStep::Request { url, redirects } => (url, redirects),
        _ => panic!("a request was expected"),
    }
}

fn failed(step: FeedStep) -> String {
    match step {
        FeedStep::Done(Err(e)) => e,
        _ => panic!("a failure was expected"),
    }
}

fn served(step: FeedStep) -> Vec<LetterboxdMovie> {
    match step {
        FeedStep::Done(Ok(movies)) => movies,
        _ => panic!("movies were expected"),
    }
}

#[test]
fn a_feed_is_read_merged_and_sorted() {
    let movies = parse_feed(RSS.as_bytes(), 5).unwrap();
    assert_eq!(titles(&movies), vec!["Heat, 1995 - ★★★★", "Alien, 1979 - ★★★★★"]);

    let heat = &movies[0];
    assert_eq!(heat.link, "https://letterboxd.com/someone/film/heat/");
    assert_eq!(heat.description, "Long & good.");
    assert_eq!(heat.rating.as_deref(), Some("4.0"));
    assert!(heat.rewatch.is_none());

    let alien = &movies[1];
    assert_eq!(alien.link, "https://letterboxd.com/someone/film/alien/");
    assert_eq!(alien.description, "Again.");
    assert_eq!(alien.pub_date.as_deref(), Some("Wed, 4 Feb 2026 10:00:00 +0000"));
    assert_eq!(alien.film_title.as_deref(), Some("Alien"));
    assert_eq!(alien.rating.as_deref(), Some("5.0"));
    assert_eq!(alien.rewatch.as_deref(), Some("Yes"));

    assert_eq!(titles(&parse_feed(RSS.as_bytes(), 1).unwrap()), vec!["Heat, 1995 - ★★★★"]);
    assert!(parse_feed(RSS.as_bytes(), 0).unwrap().is_empty());
}

#[test]
fn what_is_no_feed_is_an_error() {
    let error = parse_feed(b"<html></html>", 5).unwrap_err();
    assert!(error.starts_with("Failed to parse RSS feed: "));
    assert_eq!(
        movies_of_feed(Err("reached end of input".to_string()), 5).unwrap_err(),
        "Failed to parse RSS feed: reached end of input"
    );
    assert!(movies_of_feed(Ok(vec![]), 5).unwrap().is_empty());
}

#[test]
fn the_first_extension_element_counts() {
    let mut entry = item("Film", None);
    entry.extensions.push(extension("rewatch", vec![some("Yes"), some("No")]));
    entry.extensions.push(extension("memberRating", vec![None, some("3.5")]));
    assert_eq!(extract_extension_value(&entry, "letterboxd", "rewatch"), some("Yes"));
    assert_eq!(extract_extension_value(&entry, "letterboxd", "memberRating"), None);
    assert_eq!(extract_extension_value(&entry, "tmdb", "rewatch"), None);
    assert_eq!(extract_extension_value(&entry, "letterboxd", "watchedDate"), None);
}

#[test]
fn an_entry_without_a_film_title_tells_of_no_movie() {
    let mut entry = item("Film", None);
    let movie = read_movie(&entry).unwrap();
    assert_eq!(movie.title, "Film");
    assert_eq!(movie.link, "");
    assert_eq!(movie.description, "");
    entry.extensions.clear();
    assert!(read_movie(&entry).is_none());
}

#[test]
fn a_film_gains_what_a_later_entry_adds() {
    let mut old = movie("Heat", Some("B"));
    old.rewatch = some("No");
    let mut new = movie("Heat ★", Some("C"));
    new.rating = some("4.0");
    new.rewatch = some("Yes");
    let merged = merge_into(old, new);
    assert_eq!(merged.title, "Heat ★");
    assert_eq!(merged.rating, some("4.0"));
    assert_eq!(merged.description, "review of Heat ★");
    assert_eq!(merged.pub_date, some("C"));
    assert_eq!(merged.link, "link of Heat");
    assert_eq!(merged.rewatch, some("No"));
}

#[test]
fn a_film_keeps_what_it_has() {
    let mut old = movie("Heat ★", Some("B"));
    old.rating = some("4.0");
    let mut new = movie("Heat ★★", Some("A"));
    new.rating = some("5.0");
    let merged = merge_into(old, new);
    assert_eq!(merged.title, "Heat ★");
    assert_eq!(merged.rating, some("4.0"));
    assert_eq!(merged.description, "review of Heat ★");
    assert_eq!(merged.pub_date, some("B"));

    // Given which review is the later one, no date is looked at.
    let merged = merge_reviewed(movie("a", Some("B")), movie("b", None), true);
    assert_eq!(merged.description, "review of b");
    assert_eq!(merged.pub_date, None);

    // A review without a date replaces none, and none replaces it.
    assert_eq!(merge_into(movie("a", None), movie("b", Some("Z"))).description, "review of a");
    assert_eq!(merge_into(movie("a", Some("A")), movie("b", None)).description, "review of a");
    assert_eq!(merge_into(movie("a", Some("A")), movie("b", Some("A"))).description, "review of a");
}

#[test]
fn the_most_recent_review_is_kept() {
    let entry = |review: &str, date: &str| {
        let mut entry = item("Dune", Some(date));
        entry.description = some(review);
        entry
    };
    let old = || entry("old", "Wed, 01 Mar 2023 12:00:00 +0000");
    let new = || entry("new", "Fri, 10 Mar 2023 12:00:00 +0000");
    for items in [vec![old(), new()], vec![new(), old()]] {
        let movies = process_letterboxd_items(&items, 5);
        assert_eq!(movies.len(), 1);
        assert_eq!(movies[0].description, "new");
        assert_eq!(movies[0].pub_date, some("Fri, 10 Mar 2023 12:00:00 +0000"));
    }
}

#[test]
fn the_first_entries_name_a_movie() {
    let entry = |title: &str, link: &str, rewatch: &str| {
        let mut entry = item("Dune", None);
        entry.title = some(title);
        entry.link = some(link);
        entry.extensions.push(extension("rewatch", vec![some(rewatch)]));
        entry
    };
    let items = vec![
        entry("Dune", "first", "No"),
        entry("Dune ★", "second", "Yes"),
        entry("Dune ★★", "third", "Yes"),
    ];
    let movies = process_letterboxd_items(&items, 5);
    assert_eq!(titles(&movies), vec!["Dune ★"]);
    assert_eq!(movies[0].link, "first");
    assert_eq!(movies[0].rewatch, some("No"));
}

#[test]
fn instants_decide_and_not_the_texts_of_dates() {
    let earlier = movie("earlier", Some("Wed, 4 Feb 2026 10:00:00 +0000"));
    let later = movie("later", Some("Thu, 5 Feb 2026 00:00:00 +0000"));
    let zone = movie("zone", Some("Wed, 4 Feb 2026 20:00:00 -0500"));
    assert!(sorts_before(&later, &earlier));
    assert!(!sorts_before(&earlier, &later));
    assert!(sorts_before(&zone, &later));
    let sorted = sort_by_recency(vec![earlier, later, zone]);
    assert_eq!(titles(&sorted), vec!["zone", "later", "earlier"]);
}

#[test]
fn unreadable_dates_are_compared_as_texts() {
    let a = movie("a", Some("2026-02-04"));
    let b = movie("b", Some("2026-02-05"));
    assert!(sorts_before(&b, &a));
    assert!(!sorts_before(&a, &b));
    assert!(!sorts_before(&a, &a));
    assert!(is_more_recent("x", Some((2, 0)), "y", Some((1, 9))));
    assert!(is_more_recent("x", Some((1, 9)), "y", Some((1, 8))));
    assert!(!is_more_recent("x", Some((1, 9)), "y", Some((1, 9))));
    assert!(is_more_recent("y", Some((1, 0)), "x", None));
    assert!(!is_more_recent("x", None, "y", Some((1, 0))));
}

#[test]
fn movies_without_a_date_come_first_and_keep_their_order() {
    let sorted = sort_by_recency(vec![
        movie("dated", Some("Wed, 4 Feb 2026 10:00:00 +0000")),
        movie("first", None),
        movie("second", None),
    ]);
    assert_eq!(titles(&sorted), vec!["first", "second", "dated"]);
}

#[test]
fn each_film_is_shown_once_up_to_the_limit() {
    let items = vec![
        item("A", Some("Sun, 1 Feb 2026 10:00:00 +0000")),
        item("B", Some("Mon, 2 Feb 2026 10:00:00 +0000")),
        item("A", Some("Tue, 3 Feb 2026 10:00:00 +0000")),
        item("C", Some("Sat, 31 Jan 2026 10:00:00 +0000")),
    ];
    let movies = process_letterboxd_items(&items, 5);
    assert_eq!(titles(&movies), vec!["A", "B", "C"]);
    assert_eq!(movies[0].pub_date, some("Tue, 3 Feb 2026 10:00:00 +0000"));
    assert_eq!(titles(&process_letterboxd_items(&items, 2)), vec!["A", "B"]);
    assert!(process_letterboxd_items(&vec![], 5).is_empty());
}

#[test]
fn locations_are_resolved() {
    assert_eq!(absolute_location("//example.org/rss"), "https://example.org/rss");
    assert_eq!(absolute_location("/rss"), "/rss");
    assert_eq!(absolute_location("/"), "/");
    assert_eq!(
        resolve_redirect(FEED, "https://EXAMPLE.org"),
        Ok("https://example.org/".to_string())
    );
    assert_eq!(
        resolve_redirect(FEED, "//example.org/a b"),
        Ok("https://example.org/a%20b".to_string())
    );
    assert_eq!(resolve_redirect(FEED, "feed.xml"), Ok("https://letterboxd.com/atropos_Dad/feed.xml".to_string()));
    assert_eq!(resolve_redirect(FEED, "/rss/"), Ok("https://letterboxd.com/rss/".to_string()));
    assert_eq!(
        resolve_redirect("nowhere", "/rss/"),
        Err("Invalid base URL nowhere: relative URL without a base".to_string())
    );
    assert_eq!(
        resolve_redirect("mailto:a@b", "rss"),
        Err("Failed to join base URL with relative redirect: relative URL with a cannot-be-a-base base".to_string())
    );
}

#[test]
fn the_readings_of_a_location_are_tried_in_order() {
    let ok = |s: &str| Ok::<String, String>(s.to_string());
    let err = |s: &str| Err::<String, String>(s.to_string());
    assert_eq!(choose_target("c", ok("d"), err("b"), err("r")), ok("d"));
    assert_eq!(choose_target("c", err("d"), err("b"), ok("r")), err("Invalid base URL c: b"));
    assert_eq!(choose_target("c", err("d"), ok("b"), ok("r")), ok("r"));
    assert_eq!(
        choose_target("c", err("d"), ok("b"), err("r")),
        err("Failed to join base URL with relative redirect: r")
    );
}

#[test]
fn redirects_are_followed_ten_times() {
    let step = after_answer(FEED, 0, answer(301, Some("/x/")));
    assert_eq!(requested(step), ("https://letterboxd.com/x/".to_string(), 1));
    let step = after_answer(FEED, 9, answer(399, Some("/x/")));
    assert_eq!(requested(step), ("https://letterboxd.com/x/".to_string(), 10));
    assert!(matches!(after_answer(FEED, 10, answer(301, Some("/x/"))), FeedStep::ReadBody));
    assert!(matches!(after_answer(FEED, 0, answer(301, None)), FeedStep::ReadBody));
    assert!(matches!(after_answer(FEED, 0, answer(200, Some("/x/"))), FeedStep::ReadBody));
    assert!(matches!(after_answer(FEED, 0, answer(400, Some("/x/"))), FeedStep::ReadBody));
}

#[test]
fn failures_of_a_fetch_are_told() {
    assert_eq!(
        failed(after_answer(FEED, 0, Err("dns".to_string()))),
        "Failed to fetch RSS feed: dns"
    );
    assert_eq!(
        failed(after_answer("https://x/", 1, Err("dns".to_string()))),
        "Failed to follow redirect to https://x/: dns"
    );
    assert_eq!(
        failed(after_answer("nowhere", 0, answer(302, Some("/x/")))),
        "Invalid base URL nowhere: relative URL without a base"
    );
    let mut cache = FeedCache::new();
    let event = FeedEvent::Body(Err("cut".to_string()));
    assert_eq!(
        failed(fetch_letterboxd_feed(&mut cache, FEED, SETTINGS, NOW, event)),
        "Failed to read response body: cut"
    );
    // A failure is not cached.
    let step = fetch_letterboxd_feed(&mut cache, FEED, SETTINGS, NOW, FeedEvent::Start);
    assert_eq!(requested(step), (FEED.to_string(), 0));
}

#[test]
fn fetched_movies_are_cached_for_their_time() {
    let mut cache = FeedCache::new();
    let step = fetch_letterboxd_feed(&mut cache, FEED, SETTINGS, NOW, FeedEvent::Start);
    assert_eq!(requested(step), (FEED.to_string(), 0));
    let event = FeedEvent::Answered { url: FEED.to_string(), redirects: 0, answer: answer(200, None) };
    assert!(matches!(
        fetch_letterboxd_feed(&mut cache, FEED, SETTINGS, NOW, event),
        FeedStep::ReadBody
    ));
    let event = FeedEvent::Body(Ok(RSS.as_bytes().to_vec()));
    let movies = served(fetch_letterboxd_feed(&mut cache, FEED, SETTINGS, NOW, event));
    assert_eq!(movies.len(), 2);

    let last = NOW + 3600 * NANOS_PER_SEC - 1;
    let step = fetch_letterboxd_feed(&mut cache, FEED, SETTINGS, last, FeedEvent::Start);
    assert_eq!(titles(&served(step)), titles(&movies));
    let step = fetch_letterboxd_feed(&mut cache, FEED, SETTINGS, last + 1, FeedEvent::Start);
    requested(step);
    // Other feeds are not affected.
    let step = fetch_letterboxd_feed(&mut cache, "https://other/", SETTINGS, NOW, FeedEvent::Start);
    assert_eq!(requested(step).0, "https://other/");
    cache.forget(FEED);
    let step = fetch_letterboxd_feed(&mut cache, FEED, SETTINGS, NOW, FeedEvent::Start);
    requested(step);
}

//! Fetching a feed: the cache, the redirects and the reading, step by step.

use crate::clock::{is_fresh, still_fresh};
use crate::letterboxd::feed::{channel_items, feed_movies, movies_result, parse_feed};
use crate::letterboxd::movie::{copy_movies, movie_views, LetterboxdMovie, MovieView};
use crate::redirect::{resolve_redirect, resolved, result_texts};
use crate::text::joined;
use vstd::hash_map::StringHashMap;
use vstd::prelude::*;
use vstd::string::*;

verus! {

/// The movies of a feed, and when they were fetched.
pub struct CacheEntry {
    pub movies: Vec<LetterboxdMovie>,
    pub timestamp: u128,
}

/// The model of [`CacheEntry`].
#[verifier::ext_equal]
pub struct CachedFeed {
    pub movies: Seq<MovieView>,
    pub stored_at: nat,
}

impl View for CacheEntry {
    type V = CachedFeed;

    open spec fn view(&self) -> CachedFeed {
        CachedFeed { movies: movie_views(self.movies@), stored_at: self.timestamp as nat }
    }
}

/// The fetched feeds, by their URLs.
pub struct FeedCache {
    entries: StringHashMap<CacheEntry>,
}

impl View for FeedCache {
    type V = Map<Seq<char>, CachedFeed>;

    closed spec fn view(&self) -> Map<Seq<char>, CachedFeed> {
        self.entries@.map_values(|e: CacheEntry| e@)
    }
}

/// The movies of a feed, if they are cached and not older than they may be.
pub open spec fn cached_movies(
    cache: Map<Seq<char>, CachedFeed>,
    url: Seq<char>,
    now: nat,
    secs: nat,
) -> Option<Seq<MovieView>> {
    if cache.contains_key(url) && is_fresh(cache[url].stored_at, now, secs) {
        Some(cache[url].movies)
    } else {
        None
    }
}

impl FeedCache {
    /// A cache that holds no feed.
    pub fn new() -> (r: FeedCache)
        ensures
            r@ == Map::<Seq<char>, CachedFeed>::empty(),
    {
        let r = FeedCache { entries: StringHashMap::new() };
        assert(r@ =~= Map::empty());
        r
    }

    /// The movies of a feed that were stored less than `secs` seconds ago.
    pub fn lookup(&self, url: &str, now: u128, secs: u64) -> (r: Option<Vec<LetterboxdMovie>>)
        ensures
            match r {
                Some(movies) => cached_movies(self@, url@, now as nat, secs as nat) == Some(
                    movie_views(movies@),
                ),
                None => cached_movies(self@, url@, now as nat, secs as nat) is None,
            },
    {
        match self.entries.get(url) {
            Some(entry) => {
                if still_fresh(entry.timestamp, now, secs) {
                    Some(copy_movies(&entry.movies))
                } else {
                    None
                }
            },
            None => None,
        }
    }

    /// Stores the movies of a feed in place of what was known of it.
    pub fn store(&mut self, url: &str, movies: Vec<LetterboxdMovie>, now: u128)
        ensures
            final(self)@ == old(self)@.insert(
                url@,
                (CachedFeed { movies: movie_views(movies@), stored_at: now as nat }),
            ),
    {
        let ghost before = self@;
        let entry = CacheEntry { movies, timestamp: now };
        self.entries.insert(url.to_owned(), entry);
        assert(self@ =~= before.insert(url@, entry@));
    }

    /// Forgets a feed.
    pub fn forget(&mut self, url: &str)
        ensures
            final(self)@ == old(self)@.remove(url@),
    {
        let ghost before = self@;
        self.entries.remove(url);
        assert(self@ =~= before.remove(url@));
    }
}

/// How many redirects are followed.
pub const MAX_REDIRECTS: u8 = 10;

/// How many movies to show of a feed, and how long they may be cached.
#[derive(Clone, Copy)]
pub struct FeedSettings {
    pub movies_limit: usize,
    pub cache_secs: u64,
}

/// What a server answered: its status, and the `Location` that it named.
pub struct FeedAnswer {
    pub status: u16,
    pub location: Option<String>,
}

/// What happened last while a feed was fetched.
pub enum FeedEvent {
    /// The feed was asked for.
    Start,
    /// The request to `url`, sent after `redirects` redirects, was answered, or
    /// failed with a message.
    Answered { url: String, redirects: u8, answer: Result<FeedAnswer, String> },
    /// The body of the last answer was read, or reading failed with a message.
    Body(Result<Vec<u8>, String>),
}

/// What is to be done next.
pub enum FeedStep {
    /// Send a request to `url`.
    Request { url: String, redirects: u8 },
    /// Read the body of the last answer.
    ReadBody,
    /// Nothing: the fetching is over.
    Done(Result<Vec<LetterboxdMovie>, String>),
}

/// The model of [`FeedStep`].
#[verifier::ext_equal]
pub enum StepView {
    Request { url: Seq<char>, redirects: nat },
    ReadBody,
    Done(Result<Seq<MovieView>, Seq<char>>),
}

impl View for FeedStep {
    type V = StepView;

    open spec fn view(&self) -> StepView {
        match *self {
            FeedStep::Request { url, redirects } => StepView::Request {
                url: url@,
                redirects: redirects as nat,
            },
            FeedStep::ReadBody => StepView::ReadBody,
            FeedStep::Done(r) => StepView::Done(movies_result(r)),
        }
    }
}

/// The first step: the cached movies if they are fresh, else a request for the
/// feed.
pub open spec fn first_step(
    cache: Map<Seq<char>, CachedFeed>,
    feed_url: Seq<char>,
    now: nat,
    secs: nat,
) -> StepView {
    match cached_movies(cache, feed_url, now, secs) {
        Some(movies) => StepView::Done(Ok(movies)),
        None => StepView::Request { url: feed_url, redirects: 0 },
    }
}

/// The answer sends the request elsewhere, and may do so.
pub open spec fn is_followed(answer: FeedAnswer, redirects: nat) -> bool {
    300 <= answer.status < 400 && redirects < 10 && answer.location is Some
}

/// The step behind a redirect: a request to its target, if it has one.
pub open spec fn redirected(target: Result<Seq<char>, Seq<char>>, redirects: nat) -> StepView {
    match target {
        Ok(url) => StepView::Request { url, redirects: redirects + 1 },
        Err(e) => StepView::Done(Err(e)),
    }
}

/// The step behind an answer: a redirect is followed; of any other answer the
/// body is read; where there was none, the fetching has failed.
pub open spec fn step_after_answer(
    url: Seq<char>,
    redirects: nat,
    answer: Result<FeedAnswer, String>,
) -> StepView {
    match answer {
        Err(e) => StepView::Done(
            Err(
                if redirects == 0 {
                    "Failed to fetch RSS feed: "@ + e@
                } else {
                    "Failed to follow redirect to "@ + url + ": "@ + e@
                },
            ),
        ),
        Ok(a) => if is_followed(a, redirects) {
            redirected(resolved(url, a.location->0@), redirects)
        } else {
            StepView::ReadBody
        },
    }
}

/// The movies of a feed whose body was read.
pub open spec fn body_movies(body: Result<Vec<u8>, String>, limit: nat) -> Result<
    Seq<MovieView>,
    Seq<char>,
> {
    match body {
        Ok(bytes) => feed_movies(channel_items(bytes@), limit),
        Err(e) => Err("Failed to read response body: "@ + e@),
    }
}

/// The cache behind a fetch: movies that were made are stored.
pub open spec fn cache_after(
    cache: Map<Seq<char>, CachedFeed>,
    feed_url: Seq<char>,
    outcome: Result<Seq<MovieView>, Seq<char>>,
    now: nat,
) -> Map<Seq<char>, CachedFeed> {
    match outcome {
        Ok(movies) => cache.insert(feed_url, CachedFeed { movies, stored_at: now }),
        Err(_) => cache,
    }
}

/// Goes on behind a redirect whose target was resolved.
pub fn after_redirect(target: Result<String, String>, redirects: u8) -> (r: FeedStep)
    requires
        redirects < MAX_REDIRECTS,
    ensures
        r@ == redirected(result_texts(target), redirects as nat),
{
    match target {
        Ok(url) => FeedStep::Request { url, redirects: redirects + 1 },
        Err(e) => FeedStep::Done(Err(e)),
    }
}

/// Goes on behind the answer to a request.
pub fn after_answer(url: &str, redirects: u8, answer: Result<FeedAnswer, String>) -> (r: FeedStep)
    ensures
        r@ == step_after_answer(url@, redirects as nat, answer),
{
    match answer {
        Err(e) => {
            if redirects == 0 {
                FeedStep::Done(Err(joined("Failed to fetch RSS feed: ", e.as_str())))
            } else {
                let mut message = joined("Failed to follow redirect to ", url);
                message.append(": ");
                message.append(e.as_str());
                FeedStep::Done(Err(message))
            }
        },
        Ok(a) => {
            if 300 <= a.status && a.status < 400 && redirects < MAX_REDIRECTS {
                match a.location {
                    Some(location) => after_redirect(
                        resolve_redirect(url, location.as_str()),
                        redirects,
                    ),
                    None => FeedStep::ReadBody,
                }
            } else {
                FeedStep::ReadBody
            }
        },
    }
}

/// Ends a fetch: stores the movies, if there are any.
pub fn finish_fetch(
    cache: &mut FeedCache,
    feed_url: &str,
    outcome: Result<Vec<LetterboxdMovie>, String>,
    now: u128,
) -> (r: FeedStep)
    ensures
        r@ == StepView::Done(movies_result(outcome)),
        final(cache)@ == cache_after(old(cache)@, feed_url@, movies_result(outcome), now as nat),
{
    match outcome {
        Ok(movies) => {
            cache.store(feed_url, copy_movies(&movies), now);
            FeedStep::Done(Ok(movies))
        },
        Err(e) => FeedStep::Done(Err(e)),
    }
}

/// Takes a fetch of a feed from what happened last to what is to be done next.
pub fn fetch_letterboxd_feed(
    cache: &mut FeedCache,
    feed_url: &str,
    settings: FeedSettings,
    now: u128,
    event: FeedEvent,
) -> (r: FeedStep)
    ensures
        match event {
            FeedEvent::Start => {
                &&& r@ == first_step(
                    old(cache)@,
                    feed_url@,
                    now as nat,
                    settings.cache_secs as nat,
                )
                &&& final(cache)@ == old(cache)@
            },
            FeedEvent::Answered { url, redirects, answer } => {
                &&& r@ == step_after_answer(url@, redirects as nat, answer)
                &&& final(cache)@ == old(cache)@
            },
            FeedEvent::Body(body) => {
                let outcome = body_movies(body, settings.movies_limit as nat);
                &&& r@ == StepView::Done(outcome)
                &&& final(cache)@ == cache_after(old(cache)@, feed_url@, outcome, now as nat)
            },
        },
{
    match event {
        FeedEvent::Start => {
            match cache.lookup(feed_url, now, settings.cache_secs) {
                Some(movies) => FeedStep::Done(Ok(movies)),
                None => FeedStep::Request { url: feed_url.to_owned(), redirects: 0 },
            }
        },
        FeedEvent::Answered { url, redirects, answer } => {
            after_answer(url.as_str(), redirects, answer)
        },
        FeedEvent::Body(body) => {
            let outcome = match body {
                Ok(bytes) => parse_feed(bytes.as_slice(), settings.movies_limit),
                Err(e) => Err(joined("Failed to read response body: ", e.as_str())),
            };
            finish_fetch(cache, feed_url, outcome, now)
        },
    }
}

/// A redirect that is followed adds one to those followed so far, and never makes
/// them more than ten: a fetch sends at most eleven requests.
pub proof fn redirects_are_bounded(url: Seq<char>, redirects: nat, answer: Result<FeedAnswer, String>)
    ensures
        step_after_answer(url, redirects, answer) matches StepView::Request {
            redirects: next,
            ..
        } ==> next == redirects + 1 && next <= 10,
{
}

/// Movies that a fetch has made are served again, without a request, until they
/// are too old; other feeds are not affected.
pub proof fn fetched_movies_are_served(
    cache: Map<Seq<char>, CachedFeed>,
    feed_url: Seq<char>,
    movies: Seq<MovieView>,
    fetched_at: nat,
    now: nat,
    secs: nat,
    other: Seq<char>,
)
    requires
        other != feed_url,
    ensures
        is_fresh(fetched_at, now, secs) ==> first_step(
            cache_after(cache, feed_url, Ok(movies), fetched_at),
            feed_url,
            now,
            secs,
        ) == StepView::Done(Ok(movies)),
        !is_fresh(fetched_at, now, secs) ==> first_step(
            cache_after(cache, feed_url, Ok(movies), fetched_at),
            feed_url,
            now,
            secs,
        ) == (StepView::Request { url: feed_url, redirects: 0 }),
        first_step(cache_after(cache, feed_url, Ok(movies), fetched_at), other, now, secs)
            == first_step(cache, other, now, secs),
{
}

/// As the service is configured by default, movies are served for an hour, and
/// requested anew behind it.
pub proof fn movies_are_kept_for_an_hour(
    cache: Map<Seq<char>, CachedFeed>,
    feed_url: Seq<char>,
    movies: Seq<MovieView>,
    fetched_at: nat,
    now: nat,
)
    ensures
        first_step(
            cache_after(cache, feed_url, Ok(movies), fetched_at),
            feed_url,
            now,
            crate::config::default_config().letterboxd_duration_secs,
        ) == (if fetched_at <= now && now - fetched_at < 3600 * 1_000_000_000 {
            StepView::Done(Ok(movies))
        } else {
            StepView::Request { url: feed_url, redirects: 0 }
        }),
{
}

/// A failed fetch leaves the cache as it was.
pub proof fn failures_are_not_cached(
    cache: Map<Seq<char>, CachedFeed>,
    feed_url: Seq<char>,
    error: Seq<char>,
    now: nat,
)
    ensures
        cache_after(cache, feed_url, Err(error), now) == cache,
{
}

/// A feed that was forgotten is requested anew, whenever it is asked for.
pub proof fn forgotten_feeds_are_requested(
    cache: Map<Seq<char>, CachedFeed>,
    feed_url: Seq<char>,
    now: nat,
    secs: nat,
)
    ensures
        first_step(cache.remove(feed_url), feed_url, now, secs) == (StepView::Request {
            url: feed_url,
            redirects: 0,
        }),
{
}

/// An answer with a redirect status and a `Location` has the fetch go on to where the
/// `Location` leads, as long as fewer than ten redirects were followed; of every other
/// answer the body is read.
pub proof fn answers_are_followed_or_read(url: Seq<char>, redirects: nat, answer: FeedAnswer)
    ensures
        300 <= answer.status <= 399 && redirects < 10 ==> (answer.location matches Some(location)
            ==> (match resolved(url, location@) {
            Ok(target) => step_after_answer(url, redirects, Ok(answer)) == (StepView::Request {
                url: target,
                redirects: redirects + 1,
            }),
            Err(e) => step_after_answer(url, redirects, Ok(answer)) == StepView::Done(Err(e)),
        })),
        answer.status < 300 || answer.status >= 400 || redirects >= 10 || answer.location is None
            ==> step_after_answer(url, redirects, Ok(answer)) == StepView::ReadBody,
{
}

/// A request that fails ends the fetch with the reason, and with the address where it
/// was a redirect; so does a body that cannot be read.
pub proof fn failures_end_the_fetch(url: Seq<char>, redirects: nat, error: String, limit: nat)
    ensures
        redirects == 0 ==> step_after_answer(url, redirects, Err(error)) == StepView::Done(
            Err("Failed to fetch RSS feed: "@ + error@),
        ),
        redirects > 0 ==> step_after_answer(url, redirects, Err(error)) == StepView::Done(
            Err("Failed to follow redirect to "@ + url + ": "@ + error@),
        ),
        body_movies(Err(error), limit) == Err::<Seq<MovieView>, Seq<char>>(
            "Failed to read response body: "@ + error@,
        ),
{
}

/// A body that was read gives the movies of the feed in it.
pub proof fn bodies_give_their_feed(body: Vec<u8>, limit: nat)
    ensures
        channel_items(body@) matches Ok(items) ==> body_movies(Ok(body), limit) == Ok::<
            Seq<MovieView>,
            Seq<char>,
        >(crate::letterboxd::feed::shown_movies(items, limit)),
        channel_items(body@) is Err ==> body_movies(Ok(body), limit) is Err,
{
}

/// Whatever the time is for which movies may be cached, they are served through it and
/// requested anew behind it.
pub proof fn movies_are_served_while_young(
    cache: Map<Seq<char>, CachedFeed>,
    feed_url: Seq<char>,
    movies: Seq<MovieView>,
    fetched_at: nat,
    age: nat,
    secs: nat,
)
    ensures
        first_step(
            cache_after(cache, feed_url, Ok(movies), fetched_at),
            feed_url,
            fetched_at + age,
            secs,
        ) == (if age < secs * 1_000_000_000 {
            StepView::Done(Ok(movies))
        } else {
            StepView::Request { url: feed_url, redirects: 0 }
        }),
        !cache.contains_key(feed_url) ==> first_step(cache, feed_url, fetched_at, secs) == (
        StepView::Request { url: feed_url, redirects: 0 }),
{
}

} // verus!

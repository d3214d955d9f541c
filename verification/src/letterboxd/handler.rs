//! The answer to a request for the watched movies.

use crate::auth::{is_authorized, validate_api_key};
use crate::letterboxd::feed::movies_result;
use crate::letterboxd::fetch::{CachedFeed, FeedCache};
use crate::letterboxd::movie::{LetterboxdMovie, MovieView};
use crate::query::{form_pairs, no_options, options_of, parse_options, QueryOptions, QueryOptionsView};
use crate::reply::{reject, reply, unauthorized, uncached, BodyView, Reply, ReplyBody, ReplyView};
use vstd::prelude::*;

verus! {

/// What happened last while a request for movies was answered.
pub enum MoviesEvent {
    /// It came in.
    Request { authorization: Option<String>, query: String },
    /// The feed was fetched.
    Fetched(Result<Vec<LetterboxdMovie>, String>),
}

/// What is to be done next.
pub enum MoviesStep {
    /// Fetch this feed.
    Fetch { feed_url: String },
    Respond(Reply),
}

/// The model of [`MoviesStep`].
#[verifier::ext_equal]
pub enum MoviesStepView {
    Fetch { feed_url: Seq<char> },
    Respond(ReplyView),
}

impl View for MoviesStep {
    type V = MoviesStepView;

    open spec fn view(&self) -> MoviesStepView {
        match *self {
            MoviesStep::Fetch { feed_url } => MoviesStepView::Fetch { feed_url: feed_url@ },
            MoviesStep::Respond(r) => MoviesStepView::Respond(r@),
        }
    }
}

/// The feed that a request asks for.
pub open spec fn feed_of(options: QueryOptionsView, default_url: Seq<char>) -> Seq<char> {
    match options.feed_url {
        Some(url) => url,
        None => default_url,
    }
}

/// The cache behind a request: without the feed if the request bypasses the cache.
pub open spec fn feeds_for(
    cache: Map<Seq<char>, CachedFeed>,
    options: QueryOptionsView,
    default_url: Seq<char>,
) -> Map<Seq<char>, CachedFeed> {
    if options.no_cache {
        cache.remove(feed_of(options, default_url))
    } else {
        cache
    }
}

/// The answer that tells the movies, or that there are none.
pub open spec fn movies_reply(outcome: Result<Seq<MovieView>, Seq<char>>) -> ReplyView {
    match outcome {
        Ok(movies) => uncached(200, BodyView::Movies(movies)),
        Err(_) => uncached(
            500,
            BodyView::Error { error: "Could not load watched movies."@, detail: None },
        ),
    }
}

/// Takes up a request for movies that was read and may be answered.
pub fn begin_movies(cache: &mut FeedCache, options: &QueryOptions, default_url: &str) -> (r: String)
    ensures
        r@ == feed_of(options@, default_url@),
        final(cache)@ == feeds_for(old(cache)@, options@, default_url@),
{
    let feed_url = match &options.feed_url {
        Some(url) => url.clone(),
        None => default_url.to_owned(),
    };
    if options.no_cache {
        cache.forget(feed_url.as_str());
    }
    feed_url
}

/// Takes a request for the watched movies from what happened last to what is to be
/// done next.
pub fn get_letterboxd_movies(
    cache: &mut FeedCache,
    api_key: &str,
    default_url: &str,
    event: MoviesEvent,
) -> (r: MoviesStep)
    ensures
        match event {
            MoviesEvent::Request { authorization, query } => if is_authorized(
                authorization,
                api_key@,
            ) {
                let options = options_of(form_pairs(query@));
                &&& r@ == MoviesStepView::Fetch { feed_url: feed_of(options, default_url@) }
                &&& final(cache)@ == feeds_for(old(cache)@, options, default_url@)
                &&& query@.len() == 0 ==> options == no_options()
            } else {
                &&& r@ == MoviesStepView::Respond(unauthorized())
                &&& final(cache)@ == old(cache)@
            },
            MoviesEvent::Fetched(outcome) => {
                &&& r@ == MoviesStepView::Respond(movies_reply(movies_result(outcome)))
                &&& final(cache)@ == old(cache)@
            },
        },
{
    match event {
        MoviesEvent::Request { authorization, query } => {
            if !validate_api_key(&authorization, api_key) {
                return MoviesStep::Respond(reject());
            }
            let options = parse_options(query.as_str());
            MoviesStep::Fetch { feed_url: begin_movies(cache, &options, default_url) }
        },
        MoviesEvent::Fetched(Ok(movies)) => MoviesStep::Respond(
            reply(200, ReplyBody::Movies(movies)),
        ),
        MoviesEvent::Fetched(Err(_)) => {
            let body = ReplyBody::Error {
                error: "Could not load watched movies.".to_owned(),
                detail: None,
            };
            MoviesStep::Respond(reply(500, body))
        },
    }
}

/// A request with `no_cache` has its feed fetched anew, and leaves the other feeds
/// in the cache; one without leaves the cache as it is.
pub proof fn no_cache_bypasses_the_cache(
    cache: Map<Seq<char>, CachedFeed>,
    options: QueryOptionsView,
    default_url: Seq<char>,
    now: nat,
    secs: nat,
    other: Seq<char>,
)
    requires
        other != feed_of(options, default_url),
    ensures
        options.no_cache ==> crate::letterboxd::fetch::first_step(
            feeds_for(cache, options, default_url),
            feed_of(options, default_url),
            now,
            secs,
        ) is Request,
        crate::letterboxd::fetch::first_step(
            feeds_for(cache, options, default_url),
            other,
            now,
            secs,
        ) == crate::letterboxd::fetch::first_step(cache, other, now, secs),
        !options.no_cache ==> feeds_for(cache, options, default_url) == cache,
{
}

/// A request that names a feed has that feed fetched, whatever else it asks for; one
/// that names none has the default feed fetched.
pub proof fn the_named_feed_is_fetched(
    url: Seq<char>,
    limit: Option<usize>,
    no_cache: bool,
    default_url: Seq<char>,
)
    ensures
        feed_of((QueryOptionsView { feed_url: Some(url), limit, no_cache }), default_url) == url,
        feed_of((QueryOptionsView { feed_url: None, limit, no_cache }), default_url) == default_url,
{
}

/// A request that bypasses the cache takes its own feed out of it and nothing else.
pub proof fn only_the_own_feed_is_forgotten(
    cache: Map<Seq<char>, CachedFeed>,
    url: Seq<char>,
    limit: Option<usize>,
    default_url: Seq<char>,
    other: Seq<char>,
)
    requires
        other != url,
    ensures
        ({
            let options = QueryOptionsView { feed_url: Some(url), limit, no_cache: true };
            let left = feeds_for(cache, options, default_url);
            &&& !left.contains_key(url)
            &&& left.contains_key(other) <==> cache.contains_key(other)
            &&& cache.contains_key(other) ==> left[other] == cache[other]
        }),
{
}

/// The movies that were made are answered with success, as they are; a failure is
/// answered as such, and without its reason.
pub proof fn movies_or_failure_are_answered(
    movies: Seq<MovieView>,
    error: Seq<char>,
    other: Seq<char>,
)
    ensures
        movies_reply(Ok(movies)).status == 200,
        movies_reply(Ok(movies)).body == BodyView::Movies(movies),
        movies_reply(Err(error)).status == 500,
        movies_reply(Err(error)).body is Error,
        movies_reply(Err(error)) == movies_reply(Err(other)),
{
}

} // verus!

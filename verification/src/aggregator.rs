//! All the sources in one answer.

use crate::letterboxd::feed::movies_result;
use crate::letterboxd::fetch::FeedCache;
use crate::letterboxd::handler::{begin_movies, feed_of, feeds_for};
use crate::letterboxd::movie::{movie_views, LetterboxdMovie, MovieView};
use crate::query::{form_pairs, no_options, options_of, parse_options};
use crate::reply::{BodyView, Reply, ReplyBody, ReplyView};
use crate::spotify::handler::{begin_tracks, caches_for, limit_of};
use crate::spotify::recent::tracks_result;
use crate::spotify::state::SpotifyCaches;
use crate::spotify::track::{track_views, SpotifyTrack, TrackView};
use crate::text::{opt_text, texts};
use crate::url_handlers::UrlLog;
use vstd::prelude::*;

verus! {

/// What went wrong with the sources.
#[derive(Debug)]
pub struct AggregationErrors {
    pub letterboxd: Option<String>,
    pub spotify: Option<String>,
}

/// The model of [`AggregationErrors`].
#[verifier::ext_equal]
pub struct ErrorsView {
    pub letterboxd: Option<Seq<char>>,
    pub spotify: Option<Seq<char>>,
}

impl View for AggregationErrors {
    type V = ErrorsView;

    open spec fn view(&self) -> ErrorsView {
        ErrorsView { letterboxd: opt_text(self.letterboxd), spotify: opt_text(self.spotify) }
    }
}

impl AggregationErrors {
    /// Whether nothing went wrong.
    pub fn is_empty(&self) -> (r: bool)
        ensures
            r == (self@.letterboxd is None && self@.spotify is None),
    {
        self.letterboxd.is_none() && self.spotify.is_none()
    }
}

/// The data of all the sources.
#[derive(Debug)]
pub struct AggregatedData {
    pub urls: Vec<String>,
    pub movies: Vec<LetterboxdMovie>,
    pub tracks: Vec<SpotifyTrack>,
    /// There only when a source failed. Without it, a broken source could not be
    /// told from one that has nothing to show.
    pub errors: Option<AggregationErrors>,
}

/// The model of [`AggregatedData`].
#[verifier::ext_equal]
pub struct AggregatedView {
    pub urls: Seq<Seq<char>>,
    pub movies: Seq<MovieView>,
    pub tracks: Seq<TrackView>,
    pub errors: Option<ErrorsView>,
}

impl View for AggregatedData {
    type V = AggregatedView;

    open spec fn view(&self) -> AggregatedView {
        AggregatedView {
            urls: texts(self.urls@),
            movies: movie_views(self.movies@),
            tracks: track_views(self.tracks@),
            errors: match self.errors {
                Some(e) => Some(e@),
                None => None,
            },
        }
    }
}

/// The feed that is read where the request does not name one.
pub const DEFAULT_FEED_URL: &'static str = "https://letterboxd.com/atropos_Dad/rss";

/// What happened last while a request for all the sources was answered.
pub enum AggregateEvent {
    /// It came in.
    Request { query: String },
    /// The movies and the tracks were got.
    Fetched {
        urls: Vec<String>,
        movies: Result<Vec<LetterboxdMovie>, String>,
        tracks: Result<Vec<SpotifyTrack>, String>,
    },
}

/// What is to be done next.
pub enum AggregateStep {
    /// Fetch this feed, and get this many tracks.
    Fetch { urls: Vec<String>, feed_url: String, limit: usize },
    Respond(Reply),
}

/// The model of [`AggregateStep`].
#[verifier::ext_equal]
pub enum AggregateStepView {
    Fetch { urls: Seq<Seq<char>>, feed_url: Seq<char>, limit: usize },
    Respond(ReplyView),
}

impl View for AggregateStep {
    type V = AggregateStepView;

    open spec fn view(&self) -> AggregateStepView {
        match *self {
            AggregateStep::Fetch { urls, feed_url, limit } => AggregateStepView::Fetch {
                urls: texts(urls@),
                feed_url: feed_url@,
                limit,
            },
            AggregateStep::Respond(r) => AggregateStepView::Respond(r@),
        }
    }
}

/// What a source has given: nothing where it failed.
pub open spec fn given<T>(outcome: Result<Seq<T>, Seq<char>>) -> Seq<T> {
    match outcome {
        Ok(s) => s,
        Err(_) => Seq::empty(),
    }
}

/// Why a source failed, if it did.
pub open spec fn reason<T>(outcome: Result<Seq<T>, Seq<char>>) -> Option<Seq<char>> {
    match outcome {
        Ok(_) => None,
        Err(e) => Some(e),
    }
}

/// What the sources have given, and which of them failed.
pub open spec fn aggregate(
    urls: Seq<Seq<char>>,
    movies: Result<Seq<MovieView>, Seq<char>>,
    tracks: Result<Seq<TrackView>, Seq<char>>,
) -> AggregatedView {
    AggregatedView {
        urls,
        movies: given(movies),
        tracks: given(tracks),
        errors: if movies is Ok && tracks is Ok {
            None
        } else {
            Some(ErrorsView { letterboxd: reason(movies), spotify: reason(tracks) })
        },
    }
}

/// The answer that tells it.
pub open spec fn aggregate_reply(data: AggregatedView) -> ReplyView {
    ReplyView {
        status: 200,
        cache_control: "no-store, max-age=0"@,
        body: BodyView::Aggregated(data),
    }
}

/// Puts together what the sources have given.
pub fn combine(
    urls: Vec<String>,
    movies: Result<Vec<LetterboxdMovie>, String>,
    tracks: Result<Vec<SpotifyTrack>, String>,
) -> (r: AggregatedData)
    ensures
        r@ == aggregate(texts(urls@), movies_result(movies), tracks_result(tracks)),
{
    let mut errors = AggregationErrors { letterboxd: None, spotify: None };
    let movies = match movies {
        Ok(movies) => movies,
        Err(e) => {
            errors.letterboxd = Some(e);
            Vec::new()
        },
    };
    let tracks = match tracks {
        Ok(tracks) => tracks,
        Err(e) => {
            errors.spotify = Some(e);
            Vec::new()
        },
    };
    let errors = if errors.is_empty() {
        None
    } else {
        Some(errors)
    };
    AggregatedData { urls, movies, tracks, errors }
}

/// Takes a request for all the sources from what happened last to what is to be
/// done next. It needs no API key.
pub fn get_aggregated_data(
    caches: &mut SpotifyCaches,
    feeds: &mut FeedCache,
    log: &UrlLog,
    event: AggregateEvent,
) -> (r: AggregateStep)
    ensures
        match event {
            AggregateEvent::Request { query } => {
                let options = options_of(form_pairs(query@));
                &&& r@ == AggregateStepView::Fetch {
                    urls: log@,
                    feed_url: feed_of(options, DEFAULT_FEED_URL@),
                    limit: limit_of(options),
                }
                &&& final(caches)@ == caches_for(old(caches)@, options)
                &&& final(feeds)@ == feeds_for(old(feeds)@, options, DEFAULT_FEED_URL@)
                &&& query@.len() == 0 ==> options == no_options()
            },
            AggregateEvent::Fetched { urls, movies, tracks } => {
                &&& r@ == AggregateStepView::Respond(
                    aggregate_reply(
                        aggregate(texts(urls@), movies_result(movies), tracks_result(tracks)),
                    ),
                )
                &&& final(caches)@ == old(caches)@
                &&& final(feeds)@ == old(feeds)@
            },
        },
{
    match event {
        AggregateEvent::Request { query } => {
            let options = parse_options(query.as_str());
            let limit: usize = begin_tracks(caches, &options);
            let feed_url = begin_movies(feeds, &options, DEFAULT_FEED_URL);
            AggregateStep::Fetch { urls: log.urls(), feed_url, limit }
        },
        AggregateEvent::Fetched { urls, movies, tracks } => {
            let data = combine(urls, movies, tracks);
            AggregateStep::Respond(
                Reply {
                    status: 200,
                    cache_control: "no-store, max-age=0".to_owned(),
                    body: ReplyBody::Aggregated(data),
                },
            )
        },
    }
}

/// Errors are told exactly if a source failed. A source that failed is named with
/// its reason and gives nothing; the others give what they have.
pub proof fn failures_are_told(
    urls: Seq<Seq<char>>,
    movies: Result<Seq<MovieView>, Seq<char>>,
    tracks: Result<Seq<TrackView>, Seq<char>>,
)
    ensures
        aggregate(urls, movies, tracks).urls == urls,
        aggregate(urls, movies, tracks).errors is None <==> movies is Ok && tracks is Ok,
        match movies {
            Ok(s) => aggregate(urls, movies, tracks).movies == s && (aggregate(
                urls,
                movies,
                tracks,
            ).errors matches Some(errors) ==> errors.letterboxd is None),
            Err(e) => aggregate(urls, movies, tracks).movies.len() == 0 && (aggregate(
                urls,
                movies,
                tracks,
            ).errors matches Some(errors) && errors.letterboxd == Some(e)),
        },
        match tracks {
            Ok(s) => aggregate(urls, movies, tracks).tracks == s && (aggregate(
                urls,
                movies,
                tracks,
            ).errors matches Some(errors) ==> errors.spotify is None),
            Err(e) => aggregate(urls, movies, tracks).tracks.len() == 0 && (aggregate(
                urls,
                movies,
                tracks,
            ).errors matches Some(errors) && errors.spotify == Some(e)),
        },
{
}

/// The aggregate is always answered with success, and with all of the data.
pub proof fn the_aggregate_is_told_as_it_is(data: AggregatedView)
    ensures
        aggregate_reply(data).status == 200,
        aggregate_reply(data).body == BodyView::Aggregated(data),
{
}

} // verus!

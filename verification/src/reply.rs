//! What the service answers.

use crate::aggregator::{aggregate_reply, AggregatedData, AggregatedView};
use crate::letterboxd::handler::movies_reply;
use crate::letterboxd::movie::{movie_views, LetterboxdMovie, MovieView};
use crate::spotify::diagnose::final_reply;
use crate::spotify::handler::tracks_reply;
use crate::spotify::report::{DiagnoseReport, ReportView};
use crate::spotify::track::{track_views, SpotifyTrack, TrackView};
use crate::text::{opt_text, texts};
use vstd::prelude::*;

verus! {

/// The content of an answer; all but the empty one are sent as JSON.
#[derive(Debug)]
pub enum ReplyBody {
    Empty,
    /// What went wrong, with a detail where there is one.
    Error { error: String, detail: Option<String> },
    Urls(Vec<String>),
    Movies(Vec<LetterboxdMovie>),
    Tracks(Vec<SpotifyTrack>),
    Report(DiagnoseReport),
    Aggregated(AggregatedData),
}

/// An answer to a request.
#[derive(Debug)]
pub struct Reply {
    pub status: u16,
    /// The value of the `Cache-Control` header.
    pub cache_control: String,
    pub body: ReplyBody,
}

/// The model of [`ReplyBody`].
#[verifier::ext_equal]
pub enum BodyView {
    Empty,
    Error { error: Seq<char>, detail: Option<Seq<char>> },
    Urls(Seq<Seq<char>>),
    Movies(Seq<MovieView>),
    Tracks(Seq<TrackView>),
    Report(ReportView),
    Aggregated(AggregatedView),
}

/// The model of [`Reply`].
#[verifier::ext_equal]
pub struct ReplyView {
    pub status: u16,
    pub cache_control: Seq<char>,
    pub body: BodyView,
}

impl View for ReplyBody {
    type V = BodyView;

    open spec fn view(&self) -> BodyView {
        match *self {
            ReplyBody::Empty => BodyView::Empty,
            ReplyBody::Error { error, detail } => BodyView::Error {
                error: error@,
                detail: opt_text(detail),
            },
            ReplyBody::Urls(urls) => BodyView::Urls(texts(urls@)),
            ReplyBody::Movies(movies) => BodyView::Movies(movie_views(movies@)),
            ReplyBody::Tracks(tracks) => BodyView::Tracks(track_views(tracks@)),
            ReplyBody::Report(report) => BodyView::Report(report@),
            ReplyBody::Aggregated(data) => BodyView::Aggregated(data@),
        }
    }
}

impl View for Reply {
    type V = ReplyView;

    open spec fn view(&self) -> ReplyView {
        ReplyView {
            status: self.status,
            cache_control: self.cache_control@,
            body: self.body@,
        }
    }
}

/// An answer that no browser or CDN may keep.
pub open spec fn uncached(status: u16, body: BodyView) -> ReplyView {
    ReplyView { status, cache_control: "no-store"@, body }
}

/// Makes an answer that no browser or CDN may keep.
pub fn reply(status: u16, body: ReplyBody) -> (r: Reply)
    ensures
        r@ == uncached(status, body@),
{
    Reply { status, cache_control: "no-store".to_owned(), body }
}

/// The `Cache-Control` header keeps browsers and CDNs from storing the answer.
pub open spec fn forbids_storing(r: ReplyView) -> bool {
    "no-store"@.is_prefix_of(r.cache_control)
}

/// The answer to a request without the API key.
pub open spec fn unauthorized() -> ReplyView {
    uncached(401, BodyView::Error { error: "Invalid or missing API key"@, detail: None })
}

/// Makes the answer to a request without the API key.
pub fn reject() -> (r: Reply)
    ensures
        r@ == unauthorized(),
{
    reply(401, ReplyBody::Error { error: "Invalid or missing API key".to_owned(), detail: None })
}

/// Whatever the service answers, no browser or CDN may hand back a stale copy.
pub proof fn no_answer_is_stored(
    status: u16,
    body: BodyView,
    tracks: Result<Seq<TrackView>, Seq<char>>,
    movies: Result<Seq<MovieView>, Seq<char>>,
    report: ReportView,
    data: AggregatedView,
)
    ensures
        forbids_storing(uncached(status, body)),
        forbids_storing(unauthorized()),
        forbids_storing(tracks_reply(tracks)),
        forbids_storing(movies_reply(movies)),
        forbids_storing(final_reply(report)),
        forbids_storing(aggregate_reply(data)),
{
    reveal_strlit("no-store");
    reveal_strlit("no-store, max-age=0");
}

/// An answer carries the status and the body that it is made of; the one to a request
/// without the key says so.
pub proof fn answers_carry_what_they_are_made_of(status: u16, body: BodyView)
    ensures
        uncached(status, body).status == status,
        uncached(status, body).body == body,
        unauthorized().status == 401,
        unauthorized().body matches BodyView::Error { detail, .. } && detail is None,
{
}

} // verus!

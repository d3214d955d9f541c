//! The answer to a request for the recently played tracks.

use crate::auth::{is_authorized, validate_api_key};
use crate::query::{form_pairs, no_options, options_of, parse_options, QueryOptions, QueryOptionsView};
use crate::reply::{reject, reply, unauthorized, uncached, BodyView, Reply, ReplyBody, ReplyView};
use crate::spotify::recent::tracks_result;
use crate::spotify::state::{clear_caches, cleared, CachesView, SpotifyCaches};
use crate::spotify::track::{SpotifyTrack, TrackView};
use vstd::prelude::*;

verus! {

/// How many tracks are shown where the request does not say.
pub const NUMBER_OF_TRACKS_TO_SHOW: usize = 5;

/// What happened last while a request for tracks was answered.
pub enum TracksEvent {
    /// It came in.
    Request { authorization: Option<String>, query: String },
    /// The tracks were got.
    Fetched(Result<Vec<SpotifyTrack>, String>),
}

/// What is to be done next.
pub enum TracksStep {
    /// Get this many tracks.
    Fetch { limit: usize },
    Respond(Reply),
}

/// The model of [`TracksStep`].
#[verifier::ext_equal]
pub enum TracksStepView {
    Fetch { limit: usize },
    Respond(ReplyView),
}

impl View for TracksStep {
    type V = TracksStepView;

    open spec fn view(&self) -> TracksStepView {
        match *self {
            TracksStep::Fetch { limit } => TracksStepView::Fetch { limit },
            TracksStep::Respond(r) => TracksStepView::Respond(r@),
        }
    }
}

/// How many tracks a request asks for.
pub open spec fn limit_of(options: QueryOptionsView) -> usize {
    match options.limit {
        Some(limit) => limit,
        None => NUMBER_OF_TRACKS_TO_SHOW,
    }
}

/// The caches behind a request: cleared if it bypasses them.
pub open spec fn caches_for(caches: CachesView, options: QueryOptionsView) -> CachesView {
    if options.no_cache {
        cleared(caches)
    } else {
        caches
    }
}

/// The answer that tells the tracks, or why there are none.
pub open spec fn tracks_reply(outcome: Result<Seq<TrackView>, Seq<char>>) -> ReplyView {
    match outcome {
        Ok(tracks) => uncached(200, BodyView::Tracks(tracks)),
        Err(e) => uncached(
            500,
            BodyView::Error { error: "Could not load recently played tracks."@, detail: Some(e) },
        ),
    }
}

/// Takes up a request for tracks that was read and may be answered.
pub fn begin_tracks(caches: &mut SpotifyCaches, options: &QueryOptions) -> (r: usize)
    ensures
        r == limit_of(options@),
        final(caches)@ == caches_for(old(caches)@, options@),
{
    if options.no_cache {
        clear_caches(caches);
    }
    match options.limit {
        Some(limit) => limit,
        None => NUMBER_OF_TRACKS_TO_SHOW,
    }
}

/// Takes a request for the recently played tracks from what happened last to what
/// is to be done next.
pub fn get_spotify_tracks(caches: &mut SpotifyCaches, api_key: &str, event: TracksEvent) -> (r:
    TracksStep)
    ensures
        match event {
            TracksEvent::Request { authorization, query } => if is_authorized(
                authorization,
                api_key@,
            ) {
                let options = options_of(form_pairs(query@));
                &&& r@ == TracksStepView::Fetch { limit: limit_of(options) }
                &&& final(caches)@ == caches_for(old(caches)@, options)
                &&& query@.len() == 0 ==> options == no_options()
            } else {
                &&& r@ == TracksStepView::Respond(unauthorized())
                &&& final(caches)@ == old(caches)@
            },
            TracksEvent::Fetched(outcome) => {
                &&& r@ == TracksStepView::Respond(tracks_reply(tracks_result(outcome)))
                &&& final(caches)@ == old(caches)@
            },
        },
{
    match event {
        TracksEvent::Request { authorization, query } => {
            if !validate_api_key(&authorization, api_key) {
                return TracksStep::Respond(reject());
            }
            let options = parse_options(query.as_str());
            TracksStep::Fetch { limit: begin_tracks(caches, &options) }
        },
        TracksEvent::Fetched(Ok(tracks)) => TracksStep::Respond(
            reply(200, ReplyBody::Tracks(tracks)),
        ),
        TracksEvent::Fetched(Err(e)) => {
            let body = ReplyBody::Error {
                error: "Could not load recently played tracks.".to_owned(),
                detail: Some(e),
            };
            TracksStep::Respond(reply(500, body))
        },
    }
}

/// A request with `no_cache` has Spotify asked anew; one without leaves the caches
/// as they are.
pub proof fn no_cache_bypasses_the_caches(
    caches: CachesView,
    options: QueryOptionsView,
    limit: nat,
    excluded: Seq<Seq<char>>,
    now: nat,
)
    ensures
        options.no_cache ==> crate::spotify::recent::recent_step(
            caches_for(caches, options),
            limit,
            excluded,
            now,
            crate::spotify::recent::RecentEvent::Start,
        ) is Fetch,
        !options.no_cache ==> caches_for(caches, options) == caches,
{
}

/// A request gets as many tracks as it asks for, whatever else it asks for, and five
/// where it does not say.
pub proof fn the_limit_is_heeded(feed_url: Option<Seq<char>>, limit: usize, no_cache: bool)
    ensures
        limit_of((QueryOptionsView { feed_url, limit: Some(limit), no_cache })) == limit,
        limit_of((QueryOptionsView { feed_url, limit: None, no_cache })) == 5,
{
}

/// A request that bypasses the caches forgets the token, the tracks and the cooldown,
/// and keeps what is known of artists, whatever else it asks for; any other forgets
/// nothing.
pub proof fn bypassing_forgets_all_but_genres(
    caches: CachesView,
    feed_url: Option<Seq<char>>,
    limit: Option<usize>,
)
    ensures
        ({
            let left = caches_for(caches, (QueryOptionsView { feed_url, limit, no_cache: true }));
            &&& left.token is None
            &&& left.tracks is None
            &&& left.disabled_until is None
            &&& left.genres == caches.genres
        }),
        caches_for(caches, (QueryOptionsView { feed_url, limit, no_cache: false })) == caches,
{
}

/// The tracks that were got are answered with success, as they are; a failure is
/// answered as such, with its reason.
pub proof fn tracks_or_the_reason_are_answered(tracks: Seq<TrackView>, error: Seq<char>)
    ensures
        tracks_reply(Ok(tracks)).status == 200,
        tracks_reply(Ok(tracks)).body == BodyView::Tracks(tracks),
        tracks_reply(Err(error)).status == 500,
        tracks_reply(Err(error)).body matches BodyView::Error { detail, .. } && detail == Some(
            error,
        ),
{
}

} // verus!

//! Fetching the recently played tracks, step by step.

use crate::auth::{bearer, bearer_authorization};
use crate::clock::{is_fresh, still_fresh};
use crate::spotify::artists::{
    failed_lookups_teach_nothing, known_genres, learned, only_unknown_artists_are_looked_up,
    ArtistFetch,
};
use crate::spotify::genres::{
    no_genres_no_exclusion, unknown_artists_have_no_genres, ArtistGenres,
};
use crate::spotify::history::{
    all_ids, ids_of, parse_play_history, readable, readable_entries_stay_in_place,
    repeats_are_dropped, unique_artist_ids, without_repeats,
};
use crate::spotify::model::PlayHistoryObject;
use crate::spotify::state::{
    invalidate_token_cache, without_token, CachedTracks, CachesView, SpotifyCaches,
    TracksCacheEntry,
};
use crate::spotify::token::is_success;
use crate::spotify::track::{
    build_tracks, copy_first_tracks, filter_tracks, kept, named_entries_give_a_track_each,
    outage_filters_nothing, track_of, track_views, tracks_are_filtered_one_by_one,
    tracks_come_in_order, tracks_of, SpotifyTrack, TrackView,
};
use crate::text::{decimal, first_of, joined, shortened, snippet, texts, to_decimal};
use vstd::prelude::*;
use vstd::string::*;

verus! {

/// How long tracks may be cached: a quarter of an hour.
pub const CACHE_DURATION_SECS: u64 = 900;

/// How many tracks to ask Spotify for, before any are filtered out.
pub const RECENTLY_PLAYED_FETCH_LIMIT: u64 = 25;

/// The address of the listening history.
pub open spec fn history_url(limit: nat) -> Seq<char> {
    "https://api.spotify.com/v1/me/player/recently-played?limit="@ + decimal(limit)
}

/// Where the last plays are asked for.
pub fn recently_played_url(limit: u64) -> (r: String)
    ensures
        r@ == history_url(limit as nat),
{
    joined(
        "https://api.spotify.com/v1/me/player/recently-played?limit=",
        to_decimal(limit).as_str(),
    )
}

/// What happened last while the listening history was fetched. `retried` says
/// that this is the second try.
pub enum RawEvent {
    /// The history was asked for.
    Start,
    /// An access token was got.
    Token { retried: bool, token: Result<String, String> },
    /// Spotify answered with a status, or was not reached.
    Answered { retried: bool, answer: Result<u16, String> },
    /// The body of the answer was read.
    Body { status: u16, body: Result<String, String> },
}

/// What is to be done next: in the end, the status and the body of the answer.
pub enum RawStep {
    /// Get an access token.
    GetToken { retried: bool },
    /// Ask for the address, with the `Authorization` header.
    Send { retried: bool, url: String, authorization: String },
    /// Read the body of the answer.
    ReadBody { status: u16 },
    Done(Result<(u16, String), String>),
}

/// The model of [`RawStep`].
#[verifier::ext_equal]
pub enum RawStepView {
    GetToken { retried: bool },
    Send { retried: bool, url: Seq<char>, authorization: Seq<char> },
    ReadBody { status: u16 },
    Done(Result<(u16, Seq<char>), Seq<char>>),
}

impl View for RawStep {
    type V = RawStepView;

    open spec fn view(&self) -> RawStepView {
        match *self {
            RawStep::GetToken { retried } => RawStepView::GetToken { retried },
            RawStep::Send { retried, url, authorization } => RawStepView::Send {
                retried,
                url: url@,
                authorization: authorization@,
            },
            RawStep::ReadBody { status } => RawStepView::ReadBody { status },
            RawStep::Done(Ok((status, body))) => RawStepView::Done(Ok((status, body@))),
            RawStep::Done(Err(e)) => RawStepView::Done(Err(e@)),
        }
    }
}

/// The answer is that the token is not accepted, and it was the first try.
pub open spec fn is_stale_token(event: RawEvent) -> bool {
    event matches RawEvent::Answered { retried, answer } && !retried && answer == Ok::<u16, String>(
        401,
    )
}

/// What is to be done behind each event: an access token that is not accepted is
/// replaced, once.
pub open spec fn raw_step(event: RawEvent, limit: nat) -> RawStepView {
    match event {
        RawEvent::Start => RawStepView::GetToken { retried: false },
        RawEvent::Token { retried, token: Ok(token) } => RawStepView::Send {
            retried,
            url: history_url(limit),
            authorization: bearer(token@),
        },
        RawEvent::Token { retried, token: Err(e) } => RawStepView::Done(Err(e@)),
        RawEvent::Answered { retried, answer: Ok(status) } => if status == 401 && !retried {
            RawStepView::GetToken { retried: true }
        } else {
            RawStepView::ReadBody { status }
        },
        RawEvent::Answered { retried, answer: Err(e) } => RawStepView::Done(
            Err("Failed to reach api.spotify.com: "@ + e@),
        ),
        RawEvent::Body { status, body: Ok(body) } => RawStepView::Done(Ok((status, body@))),
        RawEvent::Body { status, body: Err(e) } => RawStepView::Done(
            Err("Failed to read recently-played body: "@ + e@),
        ),
    }
}

/// Takes a fetch of the listening history from what happened last to what is to be
/// done next. A token that Spotify no longer accepts is dropped, and the request
/// sent once more with a new one.
pub fn fetch_recently_played_raw(caches: &mut SpotifyCaches, limit: u64, event: RawEvent) -> (r:
    RawStep)
    ensures
        r@ == raw_step(event, limit as nat),
        final(caches)@ == (if is_stale_token(event) {
            without_token(old(caches)@)
        } else {
            old(caches)@
        }),
{
    match event {
        RawEvent::Start => RawStep::GetToken { retried: false },
        RawEvent::Token { retried, token: Ok(token) } => RawStep::Send {
            retried,
            url: recently_played_url(limit),
            authorization: bearer_authorization(token.as_str()),
        },
        RawEvent::Token { retried, token: Err(e) } => RawStep::Done(Err(e)),
        RawEvent::Answered { retried, answer: Ok(status) } => {
            if status == 401 && !retried {
                invalidate_token_cache(caches);
                RawStep::GetToken { retried: true }
            } else {
                RawStep::ReadBody { status }
            }
        },
        RawEvent::Answered { retried, answer: Err(e) } => RawStep::Done(
            Err(joined("Failed to reach api.spotify.com: ", e.as_str())),
        ),
        RawEvent::Body { status, body: Ok(body) } => RawStep::Done(Ok((status, body))),
        RawEvent::Body { status, body: Err(e) } => RawStep::Done(
            Err(joined("Failed to read recently-played body: ", e.as_str())),
        ),
    }
}

/// There is one second try at most: behind the answer to it, whatever it is, no
/// further token is got. Behind the answer to the first there is one exactly if
/// the token was not accepted.
pub proof fn one_retry_at_most(retried: bool, answer: Result<u16, String>, limit: nat)
    ensures
        raw_step(RawEvent::Answered { retried, answer }, limit) is GetToken <==> !retried && answer
            == Ok::<u16, String>(401),
        raw_step(RawEvent::Answered { retried, answer }, limit) matches RawStepView::GetToken {
            retried: again,
        } ==> again,
{
}

/// The tracks to show of entries of the history.
pub open spec fn shown_tracks(
    items: Seq<PlayHistoryObject>,
    genres: Map<Seq<char>, Seq<Seq<char>>>,
    excluded: Seq<Seq<char>>,
) -> Seq<TrackView> {
    kept(tracks_of(items, genres), excluded)
}

/// The cached tracks, if they are fresh.
pub open spec fn fresh_tracks(caches: CachesView, now: nat) -> Option<Seq<TrackView>> {
    match caches.tracks {
        Some(entry) => if is_fresh(entry.stored_at, now, CACHE_DURATION_SECS as nat) {
            Some(entry.tracks)
        } else {
            None
        },
        None => None,
    }
}

/// The caches with new tracks.
pub open spec fn with_tracks(caches: CachesView, tracks: Seq<TrackView>, now: nat) -> CachesView {
    CachesView { tracks: Some(CachedTracks { tracks, stored_at: now }), ..caches }
}

/// What happened last while the recently played tracks were got.
pub enum RecentEvent {
    /// They were asked for.
    Start,
    /// The history was fetched.
    Fetched(Result<(u16, String), String>),
    /// The body was parsed: as a whole, and each of its entries.
    Parsed { body: String, items: Result<Vec<Result<PlayHistoryObject, String>>, String> },
    /// The genres of the artists were looked up, unless no access token could be
    /// got.
    Genres { items: Vec<PlayHistoryObject>, genres: Result<ArtistGenres, String> },
}

/// What is to be done next.
pub enum RecentStep {
    /// Fetch the history, so many entries of it.
    Fetch { limit: u64 },
    /// Parse the body of the answer.
    Parse { body: String },
    /// Get an access token and look up the genres of the artists.
    LookUpGenres { items: Vec<PlayHistoryObject>, artist_ids: Vec<String> },
    Done(Result<Vec<SpotifyTrack>, String>),
}

/// The model of [`RecentStep`].
#[verifier::ext_equal]
pub enum RecentStepView {
    Fetch { limit: nat },
    Parse { body: Seq<char> },
    LookUpGenres { items: Seq<PlayHistoryObject>, artist_ids: Seq<Seq<char>> },
    Done(Result<Seq<TrackView>, Seq<char>>),
}

/// The outcome of getting tracks, in its models.
pub open spec fn tracks_result(r: Result<Vec<SpotifyTrack>, String>) -> Result<
    Seq<TrackView>,
    Seq<char>,
> {
    match r {
        Ok(tracks) => Ok(track_views(tracks@)),
        Err(e) => Err(e@),
    }
}

impl View for RecentStep {
    type V = RecentStepView;

    open spec fn view(&self) -> RecentStepView {
        match *self {
            RecentStep::Fetch { limit } => RecentStepView::Fetch { limit: limit as nat },
            RecentStep::Parse { body } => RecentStepView::Parse { body: body@ },
            RecentStep::LookUpGenres { items, artist_ids } => RecentStepView::LookUpGenres {
                items: items@,
                artist_ids: texts(artist_ids@),
            },
            RecentStep::Done(r) => RecentStepView::Done(tracks_result(r)),
        }
    }
}

/// The genres that were looked up; none where they could not be. Genres only serve to
/// filter the tracks, so that to do without them costs no track.
pub open spec fn genres_or_none(genres: Result<ArtistGenres, String>) -> Map<
    Seq<char>,
    Seq<Seq<char>>,
> {
    match genres {
        Ok(known) => known@,
        Err(_) => Map::empty(),
    }
}

/// What is to be done behind each event, given the caches.
pub open spec fn recent_step(
    caches: CachesView,
    limit: nat,
    excluded: Seq<Seq<char>>,
    now: nat,
    event: RecentEvent,
) -> RecentStepView {
    match event {
        RecentEvent::Start => match fresh_tracks(caches, now) {
            Some(tracks) => RecentStepView::Done(Ok(first_of(tracks, limit))),
            None => RecentStepView::Fetch { limit: RECENTLY_PLAYED_FETCH_LIMIT as nat },
        },
        RecentEvent::Fetched(Err(e)) => RecentStepView::Done(Err(e@)),
        RecentEvent::Fetched(Ok((status, body))) => if is_success(status) {
            RecentStepView::Parse { body: body@ }
        } else {
            RecentStepView::Done(
                Err(
                    "Failed to get recently played tracks: HTTP "@ + decimal(status as nat)
                        + " - "@ + shortened(body@, 500),
                ),
            )
        },
        RecentEvent::Parsed { body, items: Err(e) } => RecentStepView::Done(
            Err(
                "Failed to parse recently-played response: "@ + e@ + " - body: "@ + shortened(
                    body@,
                    500,
                ),
            ),
        ),
        RecentEvent::Parsed { body, items: Ok(items) } => RecentStepView::LookUpGenres {
            items: readable(items@),
            artist_ids: without_repeats(all_ids(readable(items@))),
        },
        RecentEvent::Genres { items, genres } => RecentStepView::Done(
            Ok(first_of(shown_tracks(items@, genres_or_none(genres), excluded), limit)),
        ),
    }
}

/// The caches behind each event: all the tracks that were made are stored, also
/// those that the limit cuts off.
pub open spec fn caches_after(
    caches: CachesView,
    excluded: Seq<Seq<char>>,
    now: nat,
    event: RecentEvent,
) -> CachesView {
    match event {
        RecentEvent::Genres { items, genres } => with_tracks(
            caches,
            shown_tracks(items@, genres_or_none(genres), excluded),
            now,
        ),
        _ => caches,
    }
}

fn describe_refusal(status: u16, body: &str) -> (r: String)
    ensures
        r@ == "Failed to get recently played tracks: HTTP "@ + decimal(status as nat) + " - "@
            + shortened(body@, 500),
{
    let mut message = joined(
        "Failed to get recently played tracks: HTTP ",
        to_decimal(status as u64).as_str(),
    );
    message.append(" - ");
    message.append(snippet(body, 500).as_str());
    message
}

fn describe_parse_error(error: &str, body: &str) -> (r: String)
    ensures
        r@ == "Failed to parse recently-played response: "@ + error@ + " - body: "@ + shortened(
            body@,
            500,
        ),
{
    let mut message = joined("Failed to parse recently-played response: ", error);
    message.append(" - body: ");
    message.append(snippet(body, 500).as_str());
    message
}

/// Takes the getting of the recently played tracks from what happened last to what
/// is to be done next.
pub fn get_recently_played(
    caches: &mut SpotifyCaches,
    limit: usize,
    excluded_genres: &Vec<String>,
    now: u128,
    event: RecentEvent,
) -> (r: RecentStep)
    ensures
        r@ == recent_step(
            old(caches)@,
            limit as nat,
            texts(excluded_genres@),
            now as nat,
            event,
        ),
        final(caches)@ == caches_after(
            old(caches)@,
            texts(excluded_genres@),
            now as nat,
            event,
        ),
{
    match event {
        RecentEvent::Start => {
            if let Some(entry) = &caches.tracks {
                if still_fresh(entry.timestamp, now, CACHE_DURATION_SECS) {
                    return RecentStep::Done(Ok(copy_first_tracks(&entry.tracks, limit)));
                }
            }
            RecentStep::Fetch { limit: RECENTLY_PLAYED_FETCH_LIMIT }
        },
        RecentEvent::Fetched(Err(e)) => RecentStep::Done(Err(e)),
        RecentEvent::Fetched(Ok((status, body))) => {
            if 200 <= status && status < 300 {
                RecentStep::Parse { body }
            } else {
                RecentStep::Done(Err(describe_refusal(status, body.as_str())))
            }
        },
        RecentEvent::Parsed { body, items: Err(e) } => RecentStep::Done(
            Err(describe_parse_error(e.as_str(), body.as_str())),
        ),
        RecentEvent::Parsed { body, items: Ok(items) } => {
            let (parsed, _skipped, _first_error) = parse_play_history(items);
            let artist_ids = unique_artist_ids(&parsed);
            RecentStep::LookUpGenres { items: parsed, artist_ids }
        },
        RecentEvent::Genres { items, genres } => {
            let genres = match genres {
                Ok(genres) => genres,
                Err(_) => ArtistGenres::new(),
            };
            let tracks = filter_tracks(build_tracks(&items, &genres), excluded_genres);
            let shown = copy_first_tracks(&tracks, limit);
            caches.tracks = Some(TracksCacheEntry { tracks, timestamp: now });
            RecentStep::Done(Ok(shown))
        },
    }
}

/// Tracks that were got are served again for a quarter of an hour, without asking
/// Spotify, to any limit; then Spotify is asked anew.
pub proof fn got_tracks_are_served(
    caches: CachesView,
    tracks: Seq<TrackView>,
    got_at: nat,
    now: nat,
    limit: nat,
    excluded: Seq<Seq<char>>,
)
    ensures
        recent_step(
            with_tracks(caches, tracks, got_at),
            limit,
            excluded,
            now,
            RecentEvent::Start,
        ) == (if got_at <= now && now - got_at < 900 * 1_000_000_000 {
            RecentStepView::Done(Ok(first_of(tracks, limit)))
        } else {
            RecentStepView::Fetch { limit: 25 }
        }),
{
}

/// Behind cleared caches Spotify is asked anew.
pub proof fn cleared_caches_serve_nothing(
    caches: CachesView,
    limit: nat,
    excluded: Seq<Seq<char>>,
    now: nat,
)
    ensures
        recent_step(
            crate::spotify::state::cleared(caches),
            limit,
            excluded,
            now,
            RecentEvent::Start,
        ) == (RecentStepView::Fetch { limit: 25 }),
{
}

/// A failure of any step leaves the cached tracks as they were.
pub proof fn failures_cache_nothing(
    caches: CachesView,
    limit: nat,
    excluded: Seq<Seq<char>>,
    now: nat,
    event: RecentEvent,
)
    requires
        recent_step(caches, limit, excluded, now, event) matches RecentStepView::Done(Err(_)),
    ensures
        caches_after(caches, excluded, now, event) == caches,
{
}

/// No more tracks are shown than the limit allows, and none of an excluded genre.
pub proof fn shown_tracks_keep_to_the_rules(
    items: Seq<PlayHistoryObject>,
    genres: Map<Seq<char>, Seq<Seq<char>>>,
    excluded: Seq<Seq<char>>,
    limit: nat,
    k: int,
)
    requires
        0 <= k < first_of(shown_tracks(items, genres, excluded), limit).len(),
    ensures
        first_of(shown_tracks(items, genres, excluded), limit).len() <= limit,
        !crate::spotify::genres::is_excluded(
            first_of(shown_tracks(items, genres, excluded), limit)[k].genres,
            excluded,
        ),
{
    lemma_kept_is_not_excluded(tracks_of(items, genres), excluded, k);
}

proof fn lemma_kept_is_not_excluded(tracks: Seq<TrackView>, excluded: Seq<Seq<char>>, k: int)
    requires
        0 <= k < kept(tracks, excluded).len(),
    ensures
        !crate::spotify::genres::is_excluded(kept(tracks, excluded)[k].genres, excluded),
    decreases tracks.len(),
{
    let before = kept(tracks.drop_last(), excluded);
    if k < before.len() {
        lemma_kept_is_not_excluded(tracks.drop_last(), excluded, k);
    }
}

/// Where no genre could be looked up, be it for want of a token, every track of the
/// history is shown, up to the limit: an outage of the genre lookup never empties
/// the list.
pub proof fn outage_shows_every_track(
    caches: CachesView,
    limit: nat,
    excluded: Seq<Seq<char>>,
    now: nat,
    items: Vec<PlayHistoryObject>,
    genres: Result<ArtistGenres, String>,
)
    requires
        genres matches Ok(known) ==> known@ == Map::<Seq<char>, Seq<Seq<char>>>::empty(),
    ensures
        recent_step(
            caches,
            limit,
            excluded,
            now,
            RecentEvent::Genres { items, genres },
        ) == RecentStepView::Done(Ok(first_of(tracks_of(items@, Map::empty()), limit))),
{
    outage_filters_nothing(items@, excluded);
}

/// A track whose artists are all unknown is not filtered out, whatever is known of
/// others.
pub proof fn tracks_of_unknown_artists_are_kept(
    items: Seq<PlayHistoryObject>,
    genres: Map<Seq<char>, Seq<Seq<char>>>,
    excluded: Seq<Seq<char>>,
    k: int,
)
    requires
        0 <= k < items.len(),
        items[k].track.name is Some,
        forall|i: int|
            0 <= i < ids_of(items[k].track.artists@).len() ==> !genres.contains_key(
                #[trigger] ids_of(items[k].track.artists@)[i],
            ),
    ensures
        track_of(items[k], genres) is Some,
        shown_tracks(items, genres, excluded).contains(track_of(items[k], genres)->0),
    decreases items.len(),
{
    let track = track_of(items[k], genres)->0;
    let init = items.drop_last();
    let before = shown_tracks(init, genres, excluded);
    let shown = shown_tracks(items, genres, excluded);
    let all = tracks_of(items, genres);
    if track_of(items.last(), genres) is Some {
        assert(all.drop_last() =~= tracks_of(init, genres));
    }
    if k < init.len() {
        tracks_of_unknown_artists_are_kept(init, genres, excluded, k);
        let m = choose|m: int| 0 <= m < before.len() && before[m] == track;
        assert(shown[m] == track);
    } else {
        unknown_artists_have_no_genres(ids_of(items[k].track.artists@), genres);
        no_genres_no_exclusion(excluded);
        assert(shown[shown.len() - 1] == track);
    }
}

/// If Spotify will not serve artist data, lookups that found nothing filter nothing
/// out: every track with a name is shown whose artists are not known from before,
/// whichever artists were asked for.
pub proof fn failed_lookups_leave_tracks_unfiltered(
    caches: CachesView,
    items: Seq<PlayHistoryObject>,
    ids: Seq<Seq<char>>,
    outcomes: Seq<ArtistFetch>,
    excluded: Seq<Seq<char>>,
    k: int,
)
    requires
        forall|i: int| 0 <= i < outcomes.len() ==> !((#[trigger] outcomes[i]) is Found),
        0 <= k < items.len(),
        items[k].track.name is Some,
        forall|i: int|
            0 <= i < ids_of(items[k].track.artists@).len() ==> !caches.genres.contains_key(
                #[trigger] ids_of(items[k].track.artists@)[i],
            ),
    ensures
        ({
            let genres = learned(known_genres(ids, caches.genres), outcomes);
            &&& track_of(items[k], genres) is Some
            &&& shown_tracks(items, genres, excluded).contains(track_of(items[k], genres)->0)
        }),
{
    let known = known_genres(ids, caches.genres);
    failed_lookups_teach_nothing(known, outcomes);
    let own = ids_of(items[k].track.artists@);
    assert forall|i: int| 0 <= i < own.len() implies !known.contains_key(#[trigger] own[i]) by {
        only_unknown_artists_are_looked_up(ids, caches.genres, own[i]);
    }
    tracks_of_unknown_artists_are_kept(items, known, excluded, k);
}

/// The history is asked for with the token at hand and as many entries as are wanted;
/// what was answered, and any error, is what comes out in the end.
pub proof fn the_history_is_asked_for(
    limit: nat,
    retried: bool,
    token: String,
    status: u16,
    body: String,
    error: String,
)
    ensures
        raw_step(RawEvent::Start, limit) == (RawStepView::GetToken { retried: false }),
        raw_step(RawEvent::Token { retried, token: Ok(token) }, limit) == (RawStepView::Send {
            retried,
            url: "https://api.spotify.com/v1/me/player/recently-played?limit="@ + decimal(limit),
            authorization: "Bearer "@ + token@,
        }),
        raw_step(RawEvent::Token { retried, token: Err(error) }, limit) == RawStepView::Done(
            Err(error@),
        ),
        status != 401 || retried ==> raw_step(
            RawEvent::Answered { retried, answer: Ok(status) },
            limit,
        ) == (RawStepView::ReadBody { status }),
        raw_step(RawEvent::Answered { retried, answer: Err(error) }, limit) == RawStepView::Done(
            Err("Failed to reach api.spotify.com: "@ + error@),
        ),
        raw_step(RawEvent::Body { status, body: Ok(body) }, limit) == RawStepView::Done(
            Ok((status, body@)),
        ),
        raw_step(RawEvent::Body { status, body: Err(error) }, limit) == RawStepView::Done(
            Err("Failed to read recently-played body: "@ + error@),
        ),
{
}

/// The token is dropped behind the first answer that does not accept it, and behind
/// nothing else.
pub proof fn only_refused_tokens_are_dropped(retried: bool, status: u16, error: String, event: RawEvent)
    ensures
        is_stale_token(RawEvent::Answered { retried, answer: Ok(status) }) <==> status == 401
            && !retried,
        !is_stale_token(RawEvent::Answered { retried, answer: Err(error) }),
        !(event is Answered) ==> !is_stale_token(event),
{
}

/// Where the entries of a history can all be read and have names, and nothing is
/// filtered out, the tracks that are shown are the ones that come first in it: those
/// played last, as many as are asked for.
pub proof fn the_last_played_are_shown(
    caches: CachesView,
    limit: nat,
    excluded: Seq<Seq<char>>,
    now: nat,
    raw: Seq<Result<PlayHistoryObject, String>>,
    items: Vec<PlayHistoryObject>,
    genres: Result<ArtistGenres, String>,
    k: int,
)
    requires
        items@ == readable(raw),
        forall|i: int|
            0 <= i < raw.len() ==> ((#[trigger] raw[i]) matches Ok(item)
                && item.track.name is Some),
        genres matches Ok(known) ==> known@ == Map::<Seq<char>, Seq<Seq<char>>>::empty(),
        0 <= k < limit,
        k < raw.len(),
    ensures
        recent_step(caches, limit, excluded, now, RecentEvent::Genres { items, genres })
            matches RecentStepView::Done(Ok(shown)) && k < shown.len() <= limit
            && shown[k].track_name == raw[k]->Ok_0.track.name->0@,
{
    readable_entries_stay_in_place(raw);
    assert forall|i: int| 0 <= i < items@.len() implies (
    #[trigger] items@[i]).track.name is Some by {
        assert(raw[i] == Ok::<PlayHistoryObject, String>(readable(raw)[i]));
    }
    named_entries_give_a_track_each(items@, Map::empty());
    outage_shows_every_track(caches, limit, excluded, now, items, genres);
    assert(raw[k] == Ok::<PlayHistoryObject, String>(readable(raw)[k]));
}

/// The tracks of a history are taken part by part, in order, and none depends on
/// another.
pub proof fn tracks_are_shown_part_by_part(
    front: Seq<PlayHistoryObject>,
    back: Seq<PlayHistoryObject>,
    genres: Map<Seq<char>, Seq<Seq<char>>>,
    excluded: Seq<Seq<char>>,
)
    ensures
        shown_tracks(front + back, genres, excluded) == shown_tracks(front, genres, excluded)
            + shown_tracks(back, genres, excluded),
{
    if front.len() + back.len() > 0 {
        let entry = (front + back)[0];
        tracks_come_in_order(front, entry, back, genres);
        let a = tracks_of(front, genres);
        let b = tracks_of(back, genres);
        if a.len() + b.len() > 0 {
            tracks_are_filtered_one_by_one(a, (a + b)[0], b, excluded);
        } else {
            assert(a + b =~= Seq::empty());
            assert(a =~= Seq::empty() && b =~= Seq::empty());
            assert(shown_tracks(front, genres, excluded) + shown_tracks(back, genres, excluded)
                =~= Seq::empty());
        }
    } else {
        assert(front + back =~= front);
        assert(shown_tracks(front, genres, excluded) + shown_tracks(back, genres, excluded)
            =~= shown_tracks(front, genres, excluded));
    }
}

/// An answer of success is parsed; any other gives an error with its status and the
/// beginning of its body. What cannot be parsed gives an error too. The artists to look
/// up are those that the entries name, and no others.
pub proof fn answers_are_parsed_or_refused(
    caches: CachesView,
    limit: nat,
    excluded: Seq<Seq<char>>,
    now: nat,
    status: u16,
    body: String,
    error: String,
    items: Vec<Result<PlayHistoryObject, String>>,
    id: Seq<char>,
)
    ensures
        200 <= status <= 299 ==> recent_step(
            caches,
            limit,
            excluded,
            now,
            RecentEvent::Fetched(Ok((status, body))),
        ) == (RecentStepView::Parse { body: body@ }),
        !(200 <= status <= 299) ==> recent_step(
            caches,
            limit,
            excluded,
            now,
            RecentEvent::Fetched(Ok((status, body))),
        ) == RecentStepView::Done(
            Err(
                "Failed to get recently played tracks: HTTP "@ + decimal(status as nat) + " - "@
                    + shortened(body@, 500),
            ),
        ),
        recent_step(caches, limit, excluded, now, RecentEvent::Fetched(Err(error)))
            == RecentStepView::Done(Err(error@)),
        recent_step(caches, limit, excluded, now, RecentEvent::Parsed { body, items: Err(error) })
            == RecentStepView::Done(
            Err(
                "Failed to parse recently-played response: "@ + error@ + " - body: "@ + shortened(
                    body@,
                    500,
                ),
            ),
        ),
        recent_step(caches, limit, excluded, now, RecentEvent::Parsed { body, items: Ok(items) })
            matches RecentStepView::LookUpGenres { items: read, artist_ids } && read == readable(
            items@,
        ) && artist_ids.no_duplicates() && (artist_ids.contains(id) <==> all_ids(
            readable(items@),
        ).contains(id)),
{
    repeats_are_dropped(all_ids(readable(items@)));
}

/// The tracks that were made are remembered, all that the filter left, and shown up to
/// the limit; all of them where no genres could be had. Nothing else that is remembered
/// changes, and no other event changes anything. Where no tracks are remembered, they
/// are fetched.
pub proof fn made_tracks_are_remembered(
    caches: CachesView,
    limit: nat,
    excluded: Seq<Seq<char>>,
    now: nat,
    items: Vec<PlayHistoryObject>,
    genres: ArtistGenres,
    error: String,
    event: RecentEvent,
)
    ensures
        ({
            let made = RecentEvent::Genres { items, genres: Ok(genres) };
            let after = caches_after(caches, excluded, now, made);
            &&& after.token == caches.token
            &&& after.genres == caches.genres
            &&& after.disabled_until == caches.disabled_until
            &&& after.tracks matches Some(entry) && entry.stored_at == now && entry.tracks
                == shown_tracks(items@, genres@, excluded)
            &&& recent_step(caches, limit, excluded, now, made) matches RecentStepView::Done(
                Ok(shown),
            ) && shown.len() <= limit && shown.is_prefix_of(
                shown_tracks(items@, genres@, excluded),
            ) && (shown.len() == limit || shown == shown_tracks(items@, genres@, excluded))
        }),
        !(event is Genres) ==> caches_after(caches, excluded, now, event) == caches,
        ({
            let made = RecentEvent::Genres { items, genres: Err(error) };
            caches_after(caches, excluded, now, made).tracks matches Some(entry)
                && entry.stored_at == now && entry.tracks == tracks_of(items@, Map::empty())
        }),
        caches.tracks is None ==> recent_step(caches, limit, excluded, now, RecentEvent::Start) == (
        RecentStepView::Fetch { limit: 25 }),
{
    outage_filters_nothing(items@, excluded);
}

} // verus!

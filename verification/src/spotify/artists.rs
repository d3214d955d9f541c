//! Looking up the genres of artists. A lookup that fails costs genres, never
//! tracks.

use crate::auth::{bearer, bearer_authorization};
use crate::clock::LATEST;
use crate::spotify::genres::{copy_genres, ArtistGenres};
use crate::spotify::model::FullArtistObject;
use crate::spotify::state::{
    artist_lookup_disabled, cooling_down, disable_artist_lookup, in_cooldown, CachesView,
    SpotifyCaches,
};
use crate::spotify::token::is_success;
use crate::text::{copy_texts, joined, texts};
use vstd::prelude::*;

verus! {

/// The outcome of a single artist lookup.
pub enum ArtistFetch {
    Found(String, Vec<String>),
    /// Spotify refused the lookup outright (removed endpoint or insufficient access).
    Unavailable(u16),
    /// A transient problem, worth another try on a later refresh.
    Failed,
}

/// What happened last while an artist was looked up.
pub enum ArtistEvent {
    /// The artist is to be looked up, with an access token.
    Start { artist_id: String, token: String },
    /// Spotify was not reached.
    Unreachable,
    /// It answered with a status.
    Answered { status: u16 },
    /// The body of a success was parsed.
    Parsed(Result<FullArtistObject, String>),
}

/// What is to be done next.
pub enum ArtistStep {
    /// Ask for the address, with the `Authorization` header.
    Send { url: String, authorization: String },
    /// Parse the body of the answer.
    ParseArtist,
    Done(ArtistFetch),
}

/// The model of [`ArtistStep`].
#[verifier::ext_equal]
pub enum ArtistStepView {
    Send { url: Seq<char>, authorization: Seq<char> },
    ParseArtist,
    Done(ArtistFetch),
}

impl View for ArtistStep {
    type V = ArtistStepView;

    open spec fn view(&self) -> ArtistStepView {
        match *self {
            ArtistStep::Send { url, authorization } => ArtistStepView::Send {
                url: url@,
                authorization: authorization@,
            },
            ArtistStep::ParseArtist => ArtistStepView::ParseArtist,
            ArtistStep::Done(outcome) => ArtistStepView::Done(outcome),
        }
    }
}

/// The address of an artist.
pub open spec fn artist_address(artist_id: Seq<char>) -> Seq<char> {
    "https://api.spotify.com/v1/artists/"@ + artist_id
}

/// A status by which Spotify says that this app cannot have the data, rather than
/// to try again.
pub open spec fn is_refusal(status: u16) -> bool {
    status == 401 || status == 403 || status == 404 || status == 410
}

/// What is to be done behind each event of a lookup.
pub open spec fn artist_step(event: ArtistEvent) -> ArtistStepView {
    match event {
        ArtistEvent::Start { artist_id, token } => ArtistStepView::Send {
            url: artist_address(artist_id@),
            authorization: bearer(token@),
        },
        ArtistEvent::Unreachable => ArtistStepView::Done(ArtistFetch::Failed),
        ArtistEvent::Answered { status } => if is_success(status) {
            ArtistStepView::ParseArtist
        } else if is_refusal(status) {
            ArtistStepView::Done(ArtistFetch::Unavailable(status))
        } else {
            ArtistStepView::Done(ArtistFetch::Failed)
        },
        ArtistEvent::Parsed(Ok(artist)) => ArtistStepView::Done(
            ArtistFetch::Found(artist.id, artist.genres),
        ),
        ArtistEvent::Parsed(Err(_)) => ArtistStepView::Done(ArtistFetch::Failed),
    }
}

/// Takes the lookup of one artist from what happened last to what is to be done
/// next.
pub fn fetch_single_artist(event: ArtistEvent) -> (r: ArtistStep)
    ensures
        r@ == artist_step(event),
{
    match event {
        ArtistEvent::Start { artist_id, token } => ArtistStep::Send {
            url: artist_url(artist_id.as_str()),
            authorization: bearer_authorization(token.as_str()),
        },
        ArtistEvent::Unreachable => ArtistStep::Done(ArtistFetch::Failed),
        ArtistEvent::Answered { status } => {
            if 200 <= status && status < 300 {
                ArtistStep::ParseArtist
            } else if status == 401 || status == 403 || status == 404 || status == 410 {
                ArtistStep::Done(ArtistFetch::Unavailable(status))
            } else {
                ArtistStep::Done(ArtistFetch::Failed)
            }
        },
        ArtistEvent::Parsed(Ok(artist)) => ArtistStep::Done(
            ArtistFetch::Found(artist.id, artist.genres),
        ),
        ArtistEvent::Parsed(Err(_)) => ArtistStep::Done(ArtistFetch::Failed),
    }
}

/// Where an artist is looked up.
pub fn artist_url(artist_id: &str) -> (r: String)
    ensures
        r@ == artist_address(artist_id@),
{
    joined("https://api.spotify.com/v1/artists/", artist_id)
}

/// What is known of the artists.
pub open spec fn known_genres(
    ids: Seq<Seq<char>>,
    genres: Map<Seq<char>, Seq<Seq<char>>>,
) -> Map<Seq<char>, Seq<Seq<char>>>
    decreases ids.len(),
{
    if ids.len() == 0 {
        Map::empty()
    } else {
        let before = known_genres(ids.drop_last(), genres);
        if genres.contains_key(ids.last()) {
            before.insert(ids.last(), genres[ids.last()])
        } else {
            before
        }
    }
}

/// The artists of whom nothing is known.
pub open spec fn unknown_ids(
    ids: Seq<Seq<char>>,
    genres: Map<Seq<char>, Seq<Seq<char>>>,
) -> Seq<Seq<char>>
    decreases ids.len(),
{
    if ids.len() == 0 {
        Seq::empty()
    } else {
        let before = unknown_ids(ids.drop_last(), genres);
        if genres.contains_key(ids.last()) {
            before
        } else {
            before.push(ids.last())
        }
    }
}

/// What is known of artists once the outcomes of lookups are taken in.
pub open spec fn learned(
    genres: Map<Seq<char>, Seq<Seq<char>>>,
    outcomes: Seq<ArtistFetch>,
) -> Map<Seq<char>, Seq<Seq<char>>>
    decreases outcomes.len(),
{
    if outcomes.len() == 0 {
        genres
    } else {
        let before = learned(genres, outcomes.drop_last());
        match outcomes.last() {
            ArtistFetch::Found(id, own) => before.insert(id@, texts(own@)),
            _ => before,
        }
    }
}

/// Some lookup was refused.
pub open spec fn was_refused(outcomes: Seq<ArtistFetch>) -> bool {
    exists|i: int| 0 <= i < outcomes.len() && (#[trigger] outcomes[i]) is Unavailable
}

/// The caches once the outcomes of lookups are taken in: a refusal starts the
/// cooldown.
pub open spec fn caches_after_lookups(
    caches: CachesView,
    outcomes: Seq<ArtistFetch>,
    now: nat,
) -> CachesView {
    let wiser = CachesView { genres: learned(caches.genres, outcomes), ..caches };
    if was_refused(outcomes) {
        cooling_down(wiser, now)
    } else {
        wiser
    }
}

/// What happened last while genres were looked up.
pub enum GenresEvent {
    /// The genres of these artists are needed.
    Start { artist_ids: Vec<String> },
    /// The artists that were not known were looked up.
    LookedUp { known: ArtistGenres, outcomes: Vec<ArtistFetch> },
}

/// What is to be done next.
pub enum GenresStep {
    /// Look these artists up, one request each.
    LookUp { known: ArtistGenres, artist_ids: Vec<String> },
    Done(ArtistGenres),
}

/// The model of [`GenresStep`].
#[verifier::ext_equal]
pub enum GenresStepView {
    LookUp { known: Map<Seq<char>, Seq<Seq<char>>>, artist_ids: Seq<Seq<char>> },
    Done(Map<Seq<char>, Seq<Seq<char>>>),
}

impl View for GenresStep {
    type V = GenresStepView;

    open spec fn view(&self) -> GenresStepView {
        match *self {
            GenresStep::LookUp { known, artist_ids } => GenresStepView::LookUp {
                known: known@,
                artist_ids: texts(artist_ids@),
            },
            GenresStep::Done(genres) => GenresStepView::Done(genres@),
        }
    }
}

/// The first step: what is known already, and a lookup of the rest, unless nothing
/// is left or lookups are in their cooldown.
pub open spec fn first_genres_step(
    caches: CachesView,
    ids: Seq<Seq<char>>,
    now: nat,
) -> GenresStepView {
    let known = known_genres(ids, caches.genres);
    let unknown = unknown_ids(ids, caches.genres);
    if unknown.len() == 0 || in_cooldown(caches, now) {
        GenresStepView::Done(known)
    } else {
        GenresStepView::LookUp { known, artist_ids: unknown }
    }
}

fn split_by_knowledge(caches: &SpotifyCaches, artist_ids: Vec<String>) -> (r: (
    ArtistGenres,
    Vec<String>,
))
    ensures
        r.0@ == known_genres(texts(artist_ids@), caches@.genres),
        texts(r.1@) == unknown_ids(texts(artist_ids@), caches@.genres),
{
    let ghost ids = texts(artist_ids@);
    let ghost genres = caches@.genres;
    let mut known = ArtistGenres::new();
    let mut unknown: Vec<String> = Vec::new();
    assert(texts(unknown@) =~= unknown_ids(ids.take(0), genres));
    for id in it: artist_ids
        invariant
            it.seq() == artist_ids@,
            ids == texts(artist_ids@),
            genres == caches@.genres,
            known@ == known_genres(ids.take(it.index() as int), genres),
            texts(unknown@) == unknown_ids(ids.take(it.index() as int), genres),
    {
        let ghost before = texts(unknown@);
        assert(ids.take(it.index() + 1).drop_last() =~= ids.take(it.index() as int));
        assert(ids.take(it.index() + 1).last() == id@);
        match copy_genres(&caches.artist_genres, id.as_str()) {
            Some(own) => known.insert(id, own),
            None => {
                unknown.push(id);
                assert(texts(unknown@) =~= before.push(id@));
            },
        }
    }
    assert(ids.take(ids.len() as int) =~= ids);
    (known, unknown)
}

fn take_in(
    caches: &mut SpotifyCaches,
    known: ArtistGenres,
    outcomes: Vec<ArtistFetch>,
    now: u128,
) -> (r: ArtistGenres)
    requires
        now <= LATEST,
    ensures
        r@ == learned(known@, outcomes@),
        final(caches)@ == caches_after_lookups(old(caches)@, outcomes@, now as nat),
{
    let ghost all = outcomes@;
    let ghost before = caches@;
    let mut result = known;
    let mut refused = false;
    assert(caches@ =~= (CachesView { genres: learned(before.genres, all.take(0)), ..before }));
    for outcome in it: outcomes
        invariant
            it.seq() == all,
            result@ == learned(known@, all.take(it.index() as int)),
            caches@ == (CachesView {
                genres: learned(before.genres, all.take(it.index() as int)),
                ..before
            }),
            refused == was_refused(all.take(it.index() as int)),
    {
        let ghost done = all.take(it.index() as int);
        let ghost next = all.take(it.index() + 1);
        assert(next.drop_last() =~= done);
        assert(next.last() == outcome);
        proof {
            if was_refused(done) {
                let i = choose|i: int| 0 <= i < done.len() && (#[trigger] done[i]) is Unavailable;
                assert(next[i] is Unavailable);
            }
            if was_refused(next) && !(outcome is Unavailable) {
                let i = choose|i: int| 0 <= i < next.len() && (#[trigger] next[i]) is Unavailable;
                assert(done[i] is Unavailable);
            }
            assert(next[it.index() as int] == outcome);
        }
        match outcome {
            ArtistFetch::Found(id, genres) => {
                let copy = copy_texts(&genres);
                caches.artist_genres.insert(id.clone(), copy);
                result.insert(id, genres);
            },
            ArtistFetch::Unavailable(_) => {
                refused = true;
            },
            ArtistFetch::Failed => {},
        }
    }
    assert(all.take(all.len() as int) =~= all);
    if refused {
        disable_artist_lookup(caches, now);
    }
    result
}

/// Looks up the genres of artists: those that are known come from the cache, the
/// others from Spotify. A failure yields fewer genres, never an error, because
/// genres only serve to filter the tracks.
pub fn get_artists_with_genres(caches: &mut SpotifyCaches, now: u128, event: GenresEvent) -> (r:
    GenresStep)
    requires
        now <= LATEST,
    ensures
        match event {
            GenresEvent::Start { artist_ids } => {
                &&& r@ == first_genres_step(old(caches)@, texts(artist_ids@), now as nat)
                &&& final(caches)@ == old(caches)@
            },
            GenresEvent::LookedUp { known, outcomes } => {
                &&& r@ == GenresStepView::Done(learned(known@, outcomes@))
                &&& final(caches)@ == caches_after_lookups(old(caches)@, outcomes@, now as nat)
            },
        },
{
    match event {
        GenresEvent::Start { artist_ids } => {
            let (known, unknown) = split_by_knowledge(caches, artist_ids);
            if unknown.len() == 0 || artist_lookup_disabled(caches, now) {
                GenresStep::Done(known)
            } else {
                GenresStep::LookUp { known, artist_ids: unknown }
            }
        },
        GenresEvent::LookedUp { known, outcomes } => GenresStep::Done(
            take_in(caches, known, outcomes, now),
        ),
    }
}

/// An artist that is known is not looked up again, and an artist that is looked up
/// was not known; what is known is told as it is cached.
pub proof fn only_unknown_artists_are_looked_up(
    ids: Seq<Seq<char>>,
    genres: Map<Seq<char>, Seq<Seq<char>>>,
    id: Seq<char>,
)
    ensures
        unknown_ids(ids, genres).contains(id) <==> ids.contains(id) && !genres.contains_key(id),
        known_genres(ids, genres).contains_key(id) <==> ids.contains(id) && genres.contains_key(id),
        known_genres(ids, genres).contains_key(id) ==> known_genres(ids, genres)[id] == genres[id],
    decreases ids.len(),
{
    if ids.len() > 0 {
        let init = ids.drop_last();
        only_unknown_artists_are_looked_up(init, genres, id);
        let before = unknown_ids(init, genres);
        let after = unknown_ids(ids, genres);
        if ids.contains(id) {
            let k = choose|k: int| 0 <= k < ids.len() && ids[k] == id;
            if k < init.len() {
                assert(init[k] == id);
                assert(init.contains(id));
            }
        }
        if init.contains(id) {
            let k = choose|k: int| 0 <= k < init.len() && init[k] == id;
            assert(ids[k] == id);
        }
        if ids.last() == id {
            assert(ids[ids.len() - 1] == id);
        }
        if before.contains(id) {
            let k = choose|k: int| 0 <= k < before.len() && before[k] == id;
            assert(after[k] == id);
        }
        if after.contains(id) {
            let k = choose|k: int| 0 <= k < after.len() && after[k] == id;
            if k < before.len() {
                assert(before[k] == id);
            }
        }
        if !genres.contains_key(ids.last()) && ids.last() == id {
            assert(after[before.len() as int] == id);
        }
    }
}

/// While lookups are in their cooldown, or where every artist is known, Spotify is
/// not asked.
pub proof fn cooldown_spares_spotify(caches: CachesView, ids: Seq<Seq<char>>, now: nat)
    ensures
        in_cooldown(caches, now) ==> first_genres_step(caches, ids, now) is Done,
        (forall|i: int| 0 <= i < ids.len() ==> caches.genres.contains_key(#[trigger] ids[i]))
            ==> first_genres_step(caches, ids, now) is Done,
{
    if forall|i: int| 0 <= i < ids.len() ==> caches.genres.contains_key(#[trigger] ids[i]) {
        let unknown = unknown_ids(ids, caches.genres);
        if unknown.len() > 0 {
            only_unknown_artists_are_looked_up(ids, caches.genres, unknown[0]);
            assert(unknown.contains(unknown[0]));
        }
    }
}

/// Outcomes that are no refusal start no cooldown; one refusal does.
pub proof fn refusals_start_the_cooldown(
    caches: CachesView,
    outcomes: Seq<ArtistFetch>,
    now: nat,
)
    ensures
        was_refused(outcomes) ==> in_cooldown(caches_after_lookups(caches, outcomes, now), now),
        !was_refused(outcomes) ==> caches_after_lookups(caches, outcomes, now).disabled_until
            == caches.disabled_until,
{
}

/// What was learned of an artist is not forgotten, and an artist that was found is
/// known from then on.
pub proof fn found_artists_are_remembered(
    genres: Map<Seq<char>, Seq<Seq<char>>>,
    outcomes: Seq<ArtistFetch>,
    id: Seq<char>,
)
    ensures
        learned(genres, outcomes).contains_key(id) <==> genres.contains_key(id) || exists|i: int|
            #![trigger outcomes[i]]
            0 <= i < outcomes.len() && outcomes[i] is Found && outcomes[i]->Found_0@ == id,
    decreases outcomes.len(),
{
    if outcomes.len() > 0 {
        let init = outcomes.drop_last();
        found_artists_are_remembered(genres, init, id);
        if exists|i: int|
            #![trigger init[i]]
            0 <= i < init.len() && init[i] is Found && init[i]->Found_0@ == id {
            let i = choose|i: int|
                #![trigger init[i]]
                0 <= i < init.len() && init[i] is Found && init[i]->Found_0@ == id;
            assert(outcomes[i] == init[i]);
        }
        if exists|i: int|
            #![trigger outcomes[i]]
            0 <= i < outcomes.len() && outcomes[i] is Found && outcomes[i]->Found_0@ == id {
            let i = choose|i: int|
                #![trigger outcomes[i]]
                0 <= i < outcomes.len() && outcomes[i] is Found && outcomes[i]->Found_0@ == id;
            if i < init.len() {
                assert(init[i] == outcomes[i]);
            }
        }
        assert(outcomes[outcomes.len() - 1] == outcomes.last());
    }
}

/// Lookups of which none found its artist teach nothing.
pub proof fn failed_lookups_teach_nothing(
    genres: Map<Seq<char>, Seq<Seq<char>>>,
    outcomes: Seq<ArtistFetch>,
)
    requires
        forall|i: int| 0 <= i < outcomes.len() ==> !((#[trigger] outcomes[i]) is Found),
    ensures
        learned(genres, outcomes) == genres,
    decreases outcomes.len(),
{
    if outcomes.len() > 0 {
        let init = outcomes.drop_last();
        assert forall|i: int| 0 <= i < init.len() implies !((#[trigger] init[i]) is Found) by {
            assert(outcomes[i] == init[i]);
        }
        failed_lookups_teach_nothing(genres, init);
        assert(!(outcomes[outcomes.len() - 1] is Found));
    }
}

/// A lookup asks for the artist with the token that is at hand.
pub proof fn lookups_ask_for_their_artist(artist_id: String, token: String)
    ensures
        artist_step(ArtistEvent::Start { artist_id, token }) == (ArtistStepView::Send {
            url: "https://api.spotify.com/v1/artists/"@ + artist_id@,
            authorization: "Bearer "@ + token@,
        }),
{
}

/// A lookup that succeeds finds the artist of the answer with its genres; the four
/// statuses that say that the data is not to be had are a refusal; all else has failed.
pub proof fn lookups_find_or_are_refused_or_fail(
    status: u16,
    artist: FullArtistObject,
    error: String,
)
    ensures
        artist_step(ArtistEvent::Answered { status }) is ParseArtist <==> 200 <= status <= 299,
        artist_step(ArtistEvent::Answered { status }) == ArtistStepView::Done(
            ArtistFetch::Unavailable(status),
        ) <==> status == 401 || status == 403 || status == 404 || status == 410,
        artist_step(ArtistEvent::Answered { status }) == ArtistStepView::Done(ArtistFetch::Failed)
            <==> !(200 <= status <= 299) && status != 401 && status != 403 && status != 404
            && status != 410,
        artist_step(ArtistEvent::Parsed(Ok(artist))) == ArtistStepView::Done(
            ArtistFetch::Found(artist.id, artist.genres),
        ),
        artist_step(ArtistEvent::Parsed(Err(error))) == ArtistStepView::Done(ArtistFetch::Failed),
        artist_step(ArtistEvent::Unreachable) == ArtistStepView::Done(ArtistFetch::Failed),
{
}

/// The artists to look up come in their order, each as often as it is asked for.
pub proof fn unknown_artists_keep_their_order(
    front: Seq<Seq<char>>,
    id: Seq<char>,
    back: Seq<Seq<char>>,
    genres: Map<Seq<char>, Seq<Seq<char>>>,
)
    ensures
        unknown_ids(front + back, genres) == unknown_ids(front, genres) + unknown_ids(back, genres),
        genres.contains_key(id) ==> unknown_ids(seq![id], genres).len() == 0,
        !genres.contains_key(id) ==> unknown_ids(seq![id], genres) == seq![id],
    decreases back.len(),
{
    let one = seq![id];
    assert(one.drop_last() =~= Seq::empty());
    assert(unknown_ids(one.drop_last(), genres) =~= Seq::empty());
    if !genres.contains_key(id) {
        assert(unknown_ids(one, genres) =~= one);
    }
    if back.len() > 0 {
        unknown_artists_keep_their_order(front, id, back.drop_last(), genres);
        assert((front + back).drop_last() =~= front + back.drop_last());
        assert(unknown_ids(front + back, genres) =~= unknown_ids(front, genres) + unknown_ids(
            back,
            genres,
        ));
    } else {
        assert(front + back =~= front);
        assert(unknown_ids(front, genres) + unknown_ids(back, genres) =~= unknown_ids(
            front,
            genres,
        ));
    }
}

/// What is known of an artist is what the last lookup that found it told; where none
/// found it, what was known before.
pub proof fn the_last_finding_counts(
    genres: Map<Seq<char>, Seq<Seq<char>>>,
    front: Seq<ArtistFetch>,
    id: String,
    own: Vec<String>,
    back: Seq<ArtistFetch>,
)
    requires
        forall|i: int|
            0 <= i < back.len() ==> !((#[trigger] back[i]) is Found && back[i]->Found_0@ == id@),
    ensures
        learned(genres, front + seq![ArtistFetch::Found(id, own)] + back).contains_key(id@),
        learned(genres, front + seq![ArtistFetch::Found(id, own)] + back)[id@] == texts(own@),
        genres.contains_key(id@) ==> learned(genres, back).contains_key(id@) && learned(
            genres,
            back,
        )[id@] == genres[id@],
        !genres.contains_key(id@) ==> !learned(genres, back).contains_key(id@),
    decreases back.len(),
{
    let all = front + seq![ArtistFetch::Found(id, own)] + back;
    if back.len() > 0 {
        let init = back.drop_last();
        assert forall|i: int| 0 <= i < init.len() implies !((#[trigger] init[i]) is Found
            && init[i]->Found_0@ == id@) by {
            assert(back[i] == init[i]);
        }
        the_last_finding_counts(genres, front, id, own, init);
        assert(all.drop_last() =~= front + seq![ArtistFetch::Found(id, own)] + init);
        assert(all.last() == back[back.len() - 1]);
        assert(!(back[back.len() - 1] is Found && back[back.len() - 1]->Found_0@ == id@));
    } else {
        assert(all.drop_last() =~= front);
        assert(all.last() == ArtistFetch::Found(id, own));
    }
}

/// The outcomes of lookups change what is known of artists and, if one was refused, the
/// cooldown, which then lasts six hours; nothing else.
pub proof fn lookups_change_genres_and_cooldown_only(
    caches: CachesView,
    outcomes: Seq<ArtistFetch>,
    now: nat,
    i: int,
)
    ensures
        caches_after_lookups(caches, outcomes, now).token == caches.token,
        caches_after_lookups(caches, outcomes, now).tracks == caches.tracks,
        caches_after_lookups(caches, outcomes, now).genres == learned(caches.genres, outcomes),
        0 <= i < outcomes.len() && outcomes[i] is Unavailable ==> caches_after_lookups(
            caches,
            outcomes,
            now,
        ).disabled_until == Some((now + 21_600 * 1_000_000_000) as nat),
        (forall|k: int| 0 <= k < outcomes.len() ==> !((#[trigger] outcomes[k]) is Unavailable))
            ==> caches_after_lookups(caches, outcomes, now).disabled_until
            == caches.disabled_until,
{
}

/// Artists are looked up exactly if some of them is not known and lookups are not in
/// their cooldown; then those that are not known are asked for, and the known ones are
/// told as they are.
pub proof fn unknown_artists_are_asked_for(caches: CachesView, ids: Seq<Seq<char>>, now: nat, i: int)
    ensures
        0 <= i < ids.len() && !caches.genres.contains_key(ids[i]) && (caches.disabled_until is None
            || caches.disabled_until->0 <= now) ==> (first_genres_step(caches, ids, now)
            matches GenresStepView::LookUp { known, artist_ids } && artist_ids.contains(ids[i])
            && !known.contains_key(ids[i])),
        first_genres_step(caches, ids, now) matches GenresStepView::LookUp { artist_ids, .. }
            ==> artist_ids.len() > 0 && artist_ids == unknown_ids(ids, caches.genres),
        0 <= i < ids.len() && caches.genres.contains_key(ids[i]) ==> (match first_genres_step(
            caches,
            ids,
            now,
        ) {
            GenresStepView::LookUp { known, .. } => known.contains_key(ids[i]) && known[ids[i]]
                == caches.genres[ids[i]],
            GenresStepView::Done(known) => known.contains_key(ids[i]) && known[ids[i]]
                == caches.genres[ids[i]],
        }),
{
    if 0 <= i < ids.len() {
        assert(ids.contains(ids[i]));
        only_unknown_artists_are_looked_up(ids, caches.genres, ids[i]);
    }
}

} // verus!

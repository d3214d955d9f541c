//! The tracks to show.

use crate::spotify::genres::{
    a_track_has_the_genres_of_its_artists, aggregate_genres_for_track, genre_list, is_excluded,
    is_excluded_by, no_genres_no_exclusion, should_exclude_track, unknown_artists_have_no_genres,
    ArtistGenres,
};
use crate::spotify::history::{artist_ids, ids_of};
use crate::spotify::model::{PlayHistoryObject, TrackObject};
use crate::text::{copy_texts, first_of, joined, opt_text, or_empty, or_nothing, texts};
use vstd::prelude::*;

verus! {

/// A played track.
#[derive(Debug)]
pub struct SpotifyTrack {
    pub track_name: String,
    pub artist: String,
    pub album_name: String,
    pub played_at: String,
    pub spotify_url: String,
    pub album_image_url: Option<String>,
    pub genres: Vec<String>,
}

/// The model of [`SpotifyTrack`].
#[verifier::ext_equal]
pub struct TrackView {
    pub track_name: Seq<char>,
    pub artist: Seq<char>,
    pub album_name: Seq<char>,
    pub played_at: Seq<char>,
    pub spotify_url: Seq<char>,
    pub album_image_url: Option<Seq<char>>,
    pub genres: Seq<Seq<char>>,
}

impl View for SpotifyTrack {
    type V = TrackView;

    open spec fn view(&self) -> TrackView {
        TrackView {
            track_name: self.track_name@,
            artist: self.artist@,
            album_name: self.album_name@,
            played_at: self.played_at@,
            spotify_url: self.spotify_url@,
            album_image_url: opt_text(self.album_image_url),
            genres: texts(self.genres@),
        }
    }
}

impl Clone for SpotifyTrack {
    fn clone(&self) -> (r: Self)
        ensures
            r@ == self@,
    {
        SpotifyTrack {
            track_name: self.track_name.clone(),
            artist: self.artist.clone(),
            album_name: self.album_name.clone(),
            played_at: self.played_at.clone(),
            spotify_url: self.spotify_url.clone(),
            album_image_url: self.album_image_url.clone(),
            genres: copy_texts(&self.genres),
        }
    }
}

/// The models of a list of tracks.
pub open spec fn track_views(s: Seq<SpotifyTrack>) -> Seq<TrackView> {
    s.map_values(|t: SpotifyTrack| t@)
}

/// A copy of the first of a list of tracks, as many as the limit allows.
pub(crate) fn copy_first_tracks(v: &Vec<SpotifyTrack>, limit: usize) -> (r: Vec<SpotifyTrack>)
    ensures
        track_views(r@) == first_of(track_views(v@), limit as nat),
{
    let n = if limit <= v.len() {
        limit
    } else {
        v.len()
    };
    let ghost all = track_views(v@);
    let mut r: Vec<SpotifyTrack> = Vec::new();
    let mut i: usize = 0;
    assert(track_views(r@) =~= all.take(0));
    while i < n
        invariant
            i <= n <= v.len(),
            all == track_views(v@),
            track_views(r@) == all.take(i as int),
        decreases n - i,
    {
        let ghost before = track_views(r@);
        r.push(v[i].clone());
        assert(track_views(r@) =~= before.push(all[i as int]));
        i = i + 1;
        assert(track_views(r@) =~= all.take(i as int));
    }
    assert(all.take(all.len() as int) =~= all);
    r
}

/// The address of a track: the one it comes with, else one made of its ID, else
/// none.
pub open spec fn track_url(track: TrackObject) -> Seq<char> {
    match (track.external_urls, track.id) {
        (Some(urls), id) if urls.spotify is Some => urls.spotify->0@,
        (_, Some(id)) => "https://open.spotify.com/track/"@ + id@,
        _ => Seq::empty(),
    }
}

/// The track that an entry of the history tells of, with the genres that are
/// known of its artists. A track without a name is not worth showing; whatever
/// else is missing is left empty.
pub open spec fn track_of(
    item: PlayHistoryObject,
    genres: Map<Seq<char>, Seq<Seq<char>>>,
) -> Option<TrackView> {
    match item.track.name {
        None => None,
        Some(name) => Some(
            TrackView {
                track_name: name@,
                artist: if item.track.artists@.len() > 0 {
                    or_nothing(opt_text(item.track.artists@[0].name))
                } else {
                    Seq::empty()
                },
                album_name: match item.track.album {
                    Some(album) => or_nothing(opt_text(album.name)),
                    None => Seq::empty(),
                },
                played_at: or_nothing(opt_text(item.played_at)),
                spotify_url: track_url(item.track),
                album_image_url: match item.track.album {
                    Some(album) => if album.images@.len() > 0 {
                        opt_text(album.images@[0].url)
                    } else {
                        None
                    },
                    None => None,
                },
                genres: genre_list(ids_of(item.track.artists@), genres),
            },
        ),
    }
}

fn url_of(track: &TrackObject) -> (r: String)
    ensures
        r@ == track_url(*track),
{
    if let Some(urls) = &track.external_urls {
        if let Some(url) = &urls.spotify {
            return url.clone();
        }
    }
    match &track.id {
        Some(id) => joined("https://open.spotify.com/track/", id.as_str()),
        None => String::new(),
    }
}

/// Makes a track of an entry of the listening history.
pub fn to_spotify_track(item: &PlayHistoryObject, artist_genres: &ArtistGenres) -> (r: Option<
    SpotifyTrack,
>)
    ensures
        match r {
            Some(track) => track_of(*item, artist_genres@) == Some(track@),
            None => track_of(*item, artist_genres@) is None,
        },
{
    let track_name = match &item.track.name {
        Some(name) => name.clone(),
        None => {
            return None;
        },
    };
    let ids = artist_ids(&item.track.artists);
    let genres = aggregate_genres_for_track(ids.as_slice(), artist_genres);
    let artist = if item.track.artists.len() > 0 {
        or_empty(&item.track.artists[0].name)
    } else {
        String::new()
    };
    let (album_name, album_image_url) = match &item.track.album {
        Some(album) => {
            let image = if album.images.len() > 0 {
                album.images[0].url.clone()
            } else {
                None
            };
            (or_empty(&album.name), image)
        },
        None => (String::new(), None),
    };
    let track = SpotifyTrack {
        track_name,
        artist,
        album_name,
        played_at: or_empty(&item.played_at),
        spotify_url: url_of(&item.track),
        album_image_url,
        genres,
    };
    assert(track_of(*item, artist_genres@) == Some(track@));
    Some(track)
}

/// The tracks that the entries tell of.
pub open spec fn tracks_of(
    items: Seq<PlayHistoryObject>,
    genres: Map<Seq<char>, Seq<Seq<char>>>,
) -> Seq<TrackView>
    decreases items.len(),
{
    if items.len() == 0 {
        Seq::empty()
    } else {
        let before = tracks_of(items.drop_last(), genres);
        match track_of(items.last(), genres) {
            Some(track) => before.push(track),
            None => before,
        }
    }
}

/// Makes tracks of the entries of the listening history.
pub fn build_tracks(items: &Vec<PlayHistoryObject>, artist_genres: &ArtistGenres) -> (r: Vec<
    SpotifyTrack,
>)
    ensures
        track_views(r@) == tracks_of(items@, artist_genres@),
{
    let ghost all = items@;
    let mut tracks: Vec<SpotifyTrack> = Vec::new();
    let mut i: usize = 0;
    assert(track_views(tracks@) =~= tracks_of(all.take(0), artist_genres@));
    while i < items.len()
        invariant
            i <= items.len(),
            all == items@,
            track_views(tracks@) == tracks_of(all.take(i as int), artist_genres@),
        decreases items.len() - i,
    {
        let ghost before = track_views(tracks@);
        assert(all.take(i + 1).drop_last() =~= all.take(i as int));
        match to_spotify_track(&items[i], artist_genres) {
            Some(track) => {
                tracks.push(track);
                assert(track_views(tracks@) =~= before.push(track@));
            },
            None => {},
        }
        i = i + 1;
    }
    assert(all.take(all.len() as int) =~= all);
    tracks
}

/// The tracks without those of an excluded genre.
pub open spec fn kept(tracks: Seq<TrackView>, excluded: Seq<Seq<char>>) -> Seq<TrackView>
    decreases tracks.len(),
{
    if tracks.len() == 0 {
        Seq::empty()
    } else {
        let before = kept(tracks.drop_last(), excluded);
        if is_excluded(tracks.last().genres, excluded) {
            before
        } else {
            before.push(tracks.last())
        }
    }
}

/// Leaves the tracks of an excluded genre out.
pub fn filter_tracks(tracks: Vec<SpotifyTrack>, excluded_genres: &Vec<String>) -> (r: Vec<
    SpotifyTrack,
>)
    ensures
        track_views(r@) == kept(track_views(tracks@), texts(excluded_genres@)),
{
    let ghost all = track_views(tracks@);
    let ghost excluded = texts(excluded_genres@);
    let mut left: Vec<SpotifyTrack> = Vec::new();
    assert(track_views(left@) =~= kept(all.take(0), excluded));
    for track in it: tracks
        invariant
            it.seq() == tracks@,
            all == track_views(tracks@),
            excluded == texts(excluded_genres@),
            track_views(left@) == kept(all.take(it.index() as int), excluded),
    {
        let ghost before = track_views(left@);
        assert(all.take(it.index() + 1).drop_last() =~= all.take(it.index() as int));
        assert(all.take(it.index() + 1).last() == track@);
        if !should_exclude_track(track.genres.as_slice(), excluded_genres.as_slice()) {
            left.push(track);
            assert(track_views(left@) =~= before.push(track@));
        }
    }
    assert(all.take(all.len() as int) =~= all);
    left
}

/// What the filter keeps is what is of no excluded genre, in its order.
pub proof fn filter_drops_excluded_only(tracks: Seq<TrackView>, excluded: Seq<Seq<char>>)
    ensures
        kept(tracks, excluded) == tracks.filter(|t: TrackView| !is_excluded(t.genres, excluded)),
    decreases tracks.len(),
{
    reveal(Seq::filter);
    if tracks.len() > 0 {
        filter_drops_excluded_only(tracks.drop_last(), excluded);
    }
}

proof fn lemma_unknown_genres(items: Seq<PlayHistoryObject>, k: int)
    requires
        0 <= k < tracks_of(items, Map::empty()).len(),
    ensures
        tracks_of(items, Map::empty())[k].genres == Seq::<Seq<char>>::empty(),
    decreases items.len(),
{
    let before = tracks_of(items.drop_last(), Map::empty());
    if k < before.len() {
        lemma_unknown_genres(items.drop_last(), k);
    } else {
        unknown_artists_have_no_genres(ids_of(items.last().track.artists@), Map::empty());
    }
}

proof fn lemma_nothing_dropped(tracks: Seq<TrackView>, excluded: Seq<Seq<char>>)
    requires
        forall|k: int| 0 <= k < tracks.len() ==> !is_excluded((#[trigger] tracks[k]).genres, excluded),
    ensures
        kept(tracks, excluded) == tracks,
    decreases tracks.len(),
{
    if tracks.len() > 0 {
        let init = tracks.drop_last();
        assert forall|k: int| 0 <= k < init.len() implies !is_excluded(
            (#[trigger] init[k]).genres,
            excluded,
        ) by {
            assert(tracks[k] == init[k]);
        }
        lemma_nothing_dropped(init, excluded);
        assert(tracks[tracks.len() - 1] == tracks.last());
        assert(init.push(tracks.last()) =~= tracks);
    } else {
        assert(tracks =~= Seq::empty());
    }
}

/// Where no genre could be looked up, every track is shown: an outage of the genre
/// lookup never empties the list.
pub proof fn outage_filters_nothing(items: Seq<PlayHistoryObject>, excluded: Seq<Seq<char>>)
    ensures
        kept(tracks_of(items, Map::empty()), excluded) == tracks_of(items, Map::empty()),
{
    let tracks = tracks_of(items, Map::empty());
    assert forall|k: int| 0 <= k < tracks.len() implies !is_excluded(
        (#[trigger] tracks[k]).genres,
        excluded,
    ) by {
        lemma_unknown_genres(items, k);
        no_genres_no_exclusion(excluded);
    }
    lemma_nothing_dropped(tracks, excluded);
}

/// Where no genre is excluded, every track is shown.
pub proof fn nothing_excluded_filters_nothing(tracks: Seq<TrackView>)
    ensures
        kept(tracks, Seq::empty()) == tracks,
{
    lemma_nothing_dropped(tracks, Seq::empty());
}

/// A track is shown exactly if it has a name. It is told under that name, with the
/// name of its first artist, the album's name and first image and the time it was
/// played, as far as they are known and empty where they are not.
pub proof fn a_track_is_what_its_entry_says(
    item: PlayHistoryObject,
    genres: Map<Seq<char>, Seq<Seq<char>>>,
)
    ensures
        track_of(item, genres) is Some <==> item.track.name is Some,
        track_of(item, genres) matches Some(track) ==> {
            &&& track.track_name == item.track.name->0@
            &&& item.played_at matches Some(at) ==> track.played_at == at@
            &&& item.played_at is None ==> track.played_at.len() == 0
            &&& item.track.artists@.len() > 0 ==> (item.track.artists@[0].name matches Some(name)
                ==> track.artist == name@)
            &&& item.track.artists@.len() == 0 || item.track.artists@[0].name is None
                ==> track.artist.len() == 0
            &&& item.track.album matches Some(album) ==> (album.name matches Some(name)
                ==> track.album_name == name@)
            &&& item.track.album matches Some(album) ==> (album.name is None
                ==> track.album_name.len() == 0)
            &&& item.track.album is None ==> track.album_name.len() == 0
                && track.album_image_url is None
            &&& item.track.album matches Some(album) ==> (album.images@.len() > 0 ==> (
            album.images@[0].url matches Some(url) ==> track.album_image_url == Some(url@)))
            &&& item.track.album matches Some(album) ==> (album.images@.len() == 0
                || album.images@[0].url is None ==> track.album_image_url is None)
        },
{
}

/// The address of a track is the one that it comes with; without one it is made of the
/// ID, and without an ID it is empty.
pub proof fn a_track_has_its_own_address(
    item: PlayHistoryObject,
    genres: Map<Seq<char>, Seq<Seq<char>>>,
)
    requires
        item.track.name is Some,
    ensures
        item.track.external_urls matches Some(urls) ==> (urls.spotify matches Some(url)
            ==> track_of(item, genres)->0.spotify_url == url@),
        item.track.external_urls is None || item.track.external_urls->0.spotify is None ==> (
        item.track.id matches Some(id) ==> track_of(item, genres)->0.spotify_url
            == "https://open.spotify.com/track/"@ + id@),
        item.track.id is None && (item.track.external_urls is None
            || item.track.external_urls->0.spotify is None) ==> track_of(
            item,
            genres,
        )->0.spotify_url.len() == 0,
{
}

/// The genres of a track are those known of its artists, whatever else it holds; each
/// once, in the order of texts.
pub proof fn a_track_has_the_genres_known_of_its_artists(
    item: PlayHistoryObject,
    genres: Map<Seq<char>, Seq<Seq<char>>>,
    genre: Seq<char>,
)
    requires
        item.track.name is Some,
    ensures
        track_of(item, genres)->0.genres.contains(genre) <==> exists|i: int|
            0 <= i < ids_of(item.track.artists@).len() && genres.contains_key(
                #[trigger] ids_of(item.track.artists@)[i],
            ) && genres[ids_of(item.track.artists@)[i]].contains(genre),
        track_of(item, genres)->0.genres.no_duplicates(),
        forall|i: int, j: int|
            0 <= i < j < track_of(item, genres)->0.genres.len() ==> crate::text::precedes(
                #[trigger] track_of(item, genres)->0.genres[i],
                #[trigger] track_of(item, genres)->0.genres[j],
            ),
{
    a_track_has_the_genres_of_its_artists(ids_of(item.track.artists@), genres, genre);
}

/// Tracks come in the order of the entries, one for each that gives one.
pub proof fn tracks_come_in_order(
    front: Seq<PlayHistoryObject>,
    entry: PlayHistoryObject,
    back: Seq<PlayHistoryObject>,
    genres: Map<Seq<char>, Seq<Seq<char>>>,
)
    ensures
        tracks_of(front + back, genres) == tracks_of(front, genres) + tracks_of(back, genres),
        track_of(entry, genres) matches Some(track) ==> tracks_of(seq![entry], genres) == seq![track],
        track_of(entry, genres) is None ==> tracks_of(seq![entry], genres).len() == 0,
    decreases back.len(),
{
    let one = seq![entry];
    assert(one.drop_last() =~= Seq::empty());
    assert(tracks_of(one.drop_last(), genres) =~= Seq::empty());
    if let Some(track) = track_of(entry, genres) {
        assert(tracks_of(one, genres) =~= seq![track]);
    }
    if back.len() > 0 {
        tracks_come_in_order(front, entry, back.drop_last(), genres);
        assert((front + back).drop_last() =~= front + back.drop_last());
        assert(tracks_of(front + back, genres) =~= tracks_of(front, genres) + tracks_of(
            back,
            genres,
        ));
    } else {
        assert(front + back =~= front);
        assert(tracks_of(front, genres) + tracks_of(back, genres) =~= tracks_of(front, genres));
    }
}

/// Where every entry has a name, the tracks are as many as the entries, each in the
/// place of its entry.
pub proof fn named_entries_give_a_track_each(
    items: Seq<PlayHistoryObject>,
    genres: Map<Seq<char>, Seq<Seq<char>>>,
)
    requires
        forall|i: int| 0 <= i < items.len() ==> (#[trigger] items[i]).track.name is Some,
    ensures
        tracks_of(items, genres).len() == items.len(),
        forall|i: int|
            0 <= i < items.len() ==> (#[trigger] tracks_of(items, genres)[i]).track_name
                == items[i].track.name->0@,
    decreases items.len(),
{
    if items.len() > 0 {
        let init = items.drop_last();
        assert forall|i: int| 0 <= i < init.len() implies (
        #[trigger] init[i]).track.name is Some by {
            assert(items[i] == init[i]);
        }
        named_entries_give_a_track_each(init, genres);
        assert(items[items.len() - 1].track.name is Some);
        assert forall|i: int| 0 <= i < items.len() implies (
        #[trigger] tracks_of(items, genres)[i]).track_name == items[i].track.name->0@ by {
            if i < init.len() {
                assert(tracks_of(items, genres)[i] == tracks_of(init, genres)[i]);
                assert(items[i] == init[i]);
            }
        }
    }
}

/// The filter takes the tracks one by one and keeps their order: a track of which a
/// genre is filtered out by an entry goes, any other stays.
pub proof fn tracks_are_filtered_one_by_one(
    front: Seq<TrackView>,
    track: TrackView,
    back: Seq<TrackView>,
    excluded: Seq<Seq<char>>,
)
    ensures
        kept(front + back, excluded) == kept(front, excluded) + kept(back, excluded),
        (exists|i: int, j: int|
            0 <= i < track.genres.len() && 0 <= j < excluded.len() && is_excluded_by(
                #[trigger] track.genres[i],
                #[trigger] excluded[j],
            )) ==> kept(seq![track], excluded).len() == 0,
        (forall|i: int, j: int|
            0 <= i < track.genres.len() && 0 <= j < excluded.len() ==> !is_excluded_by(
                #[trigger] track.genres[i],
                #[trigger] excluded[j],
            )) ==> kept(seq![track], excluded) == seq![track],
    decreases back.len(),
{
    let one = seq![track];
    assert(one.drop_last() =~= Seq::empty());
    assert(kept(one.drop_last(), excluded) =~= Seq::empty());
    if !is_excluded(track.genres, excluded) {
        assert(kept(one, excluded) =~= one);
    }
    if back.len() > 0 {
        tracks_are_filtered_one_by_one(front, track, back.drop_last(), excluded);
        assert((front + back).drop_last() =~= front + back.drop_last());
        assert(kept(front + back, excluded) =~= kept(front, excluded) + kept(back, excluded));
    } else {
        assert(front + back =~= front);
        assert(kept(front, excluded) + kept(back, excluded) =~= kept(front, excluded));
    }
}

} // verus!

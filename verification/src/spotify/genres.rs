//! Genres: those of artists and tracks, and those that are filtered out.

use crate::text::{
    ascii_lower, contains, copy_texts, glued, is_ascii_text, is_before, is_blank, lowercase,
    occurs, parts_occur, pieces, pieces_are_glued_back, precedes, precedes_is_irreflexive,
    precedes_is_total, precedes_is_transitive, same, split, texts, to_lowercase, trim, trimmed,
    what_occurs_is_a_part, white_space_around_is_trimmed,
};
use vstd::hash_map::StringHashMap;
use vstd::prelude::*;

verus! {

/// The genres of artists, by the artists' IDs.
pub struct ArtistGenres {
    genres: StringHashMap<Vec<String>>,
}

impl View for ArtistGenres {
    type V = Map<Seq<char>, Seq<Seq<char>>>;

    closed spec fn view(&self) -> Map<Seq<char>, Seq<Seq<char>>> {
        self.genres@.map_values(|v: Vec<String>| texts(v@))
    }
}

impl ArtistGenres {
    /// Knows no artist.
    pub fn new() -> (r: ArtistGenres)
        ensures
            r@ == Map::<Seq<char>, Seq<Seq<char>>>::empty(),
    {
        let r = ArtistGenres { genres: StringHashMap::new() };
        assert(r@ =~= Map::empty());
        r
    }

    /// Whether no artist is known.
    pub fn is_empty(&self) -> (r: bool)
        ensures
            r == (self@ == Map::<Seq<char>, Seq<Seq<char>>>::empty()),
    {
        let r = self.genres.is_empty();
        proof {
            if self@ == Map::<Seq<char>, Seq<Seq<char>>>::empty() {
                assert(self.genres@ =~= Map::empty()) by {
                    assert(self.genres@.dom() =~= self@.dom());
                }
            }
            if self.genres@ == Map::<Seq<char>, Vec<String>>::empty() {
                assert(self@ =~= Map::empty());
            }
        }
        r
    }

    /// Learns the genres of an artist.
    pub fn insert(&mut self, id: String, genres: Vec<String>)
        ensures
            final(self)@ == old(self)@.insert(id@, texts(genres@)),
    {
        let ghost before = self@;
        self.genres.insert(id, genres);
        assert(self@ =~= before.insert(id@, texts(genres@)));
    }

    /// The genres of an artist.
    pub fn get(&self, id: &str) -> (r: Option<&Vec<String>>)
        ensures
            match r {
                Some(v) => self@.contains_key(id@) && self@[id@] == texts(v@),
                None => !self@.contains_key(id@),
            },
    {
        self.genres.get(id)
    }
}

/// Strictly ascending, in the order of texts.
pub open spec fn is_ascending(s: Seq<Seq<char>>) -> bool {
    forall|i: int, j: int| 0 <= i < j < s.len() ==> precedes(#[trigger] s[i], #[trigger] s[j])
}

/// Some of the artists is known to have the genre.
pub open spec fn has_genre(
    ids: Seq<Seq<char>>,
    genres: Map<Seq<char>, Seq<Seq<char>>>,
    genre: Seq<char>,
) -> bool {
    exists|i: int|
        0 <= i < ids.len() && genres.contains_key(#[trigger] ids[i]) && genres[ids[i]].contains(
            genre,
        )
}

/// The list holds the genres that the artists are known to have, each once, in
/// ascending order.
pub open spec fn is_genre_list(
    list: Seq<Seq<char>>,
    ids: Seq<Seq<char>>,
    genres: Map<Seq<char>, Seq<Seq<char>>>,
) -> bool {
    &&& is_ascending(list)
    &&& forall|g: Seq<char>| #[trigger] list.contains(g) <==> has_genre(ids, genres, g)
}

/// The genres that the artists are known to have.
pub open spec fn genre_list(
    ids: Seq<Seq<char>>,
    genres: Map<Seq<char>, Seq<Seq<char>>>,
) -> Seq<Seq<char>> {
    choose|list: Seq<Seq<char>>| is_genre_list(list, ids, genres)
}

proof fn lemma_ascending_prefix(a: Seq<Seq<char>>, b: Seq<Seq<char>>, n: int)
    requires
        is_ascending(a),
        is_ascending(b),
        forall|g: Seq<char>| #[trigger] a.contains(g) <==> b.contains(g),
        0 <= n <= a.len(),
        n <= b.len(),
    ensures
        a.take(n) == b.take(n),
    decreases n,
{
    if n > 0 {
        lemma_ascending_prefix(a, b, n - 1);
        let i = n - 1;
        assert forall|k: int| 0 <= k < i implies a[k] == b[k] by {
            assert(a.take(i)[k] == b.take(i)[k]);
        }
        assert(a.contains(a[i]));
        assert(b.contains(b[i]));
        assert(b.contains(a[i]));
        assert(a.contains(b[i]));
        let j = choose|j: int| 0 <= j < b.len() && b[j] == a[i];
        let k = choose|k: int| 0 <= k < a.len() && a[k] == b[i];
        precedes_is_irreflexive(a[i]);
        precedes_is_irreflexive(b[i]);
        if j < i {
            assert(a[j] == a[i]);
            assert(precedes(a[j], a[i]));
        }
        if k < i {
            assert(b[k] == b[i]);
            assert(precedes(b[k], b[i]));
        }
        if j > i && k > i {
            assert(precedes(b[i], b[j]));
            assert(precedes(a[i], a[k]));
            precedes_is_transitive(a[i], b[i], a[i]);
        }
        assert(a[i] == b[i]);
        assert(a.take(n) =~= a.take(i).push(a[i]));
        assert(b.take(n) =~= b.take(i).push(b[i]));
    } else {
        assert(a.take(0) =~= b.take(0));
    }
}

/// There is one ascending list of given members.
pub proof fn ascending_is_canonical(a: Seq<Seq<char>>, b: Seq<Seq<char>>)
    requires
        is_ascending(a),
        is_ascending(b),
        forall|g: Seq<char>| #[trigger] a.contains(g) <==> b.contains(g),
    ensures
        a == b,
{
    let n = if a.len() <= b.len() {
        a.len() as int
    } else {
        b.len() as int
    };
    lemma_ascending_prefix(a, b, n);
    if a.len() < b.len() {
        assert(b.contains(b[n]));
        assert(a.contains(b[n]));
        let k = choose|k: int| 0 <= k < a.len() && a[k] == b[n];
        assert(a.take(n)[k] == b.take(n)[k]);
        assert(precedes(b[k], b[n]));
        precedes_is_irreflexive(b[n]);
    } else if b.len() < a.len() {
        assert(a.contains(a[n]));
        assert(b.contains(a[n]));
        let k = choose|k: int| 0 <= k < b.len() && b[k] == a[n];
        assert(a.take(n)[k] == b.take(n)[k]);
        assert(precedes(a[k], a[n]));
        precedes_is_irreflexive(a[n]);
    }
    assert(a.take(n) =~= a);
    assert(b.take(n) =~= b);
}

/// Artists of whom nothing is known have no genres.
pub proof fn unknown_artists_have_no_genres(
    ids: Seq<Seq<char>>,
    genres: Map<Seq<char>, Seq<Seq<char>>>,
)
    requires
        forall|i: int| 0 <= i < ids.len() ==> !genres.contains_key(#[trigger] ids[i]),
    ensures
        genre_list(ids, genres) == Seq::<Seq<char>>::empty(),
{
    let none = Seq::<Seq<char>>::empty();
    assert(is_genre_list(none, ids, genres));
    ascending_is_canonical(genre_list(ids, genres), none);
}

/// Puts a genre in its place, unless it is there already.
fn add_genre(list: &mut Vec<String>, genre: &String)
    requires
        is_ascending(texts(old(list)@)),
    ensures
        is_ascending(texts(final(list)@)),
        forall|g: Seq<char>| #[trigger]
            texts(final(list)@).contains(g) <==> texts(old(list)@).contains(g) || g == genre@,
{
    let ghost before = texts(list@);
    let mut at: usize = 0;
    while at < list.len() && is_before(list[at].as_str(), genre.as_str())
        invariant
            at <= list.len(),
            before == texts(list@),
            forall|k: int| 0 <= k < at ==> precedes(#[trigger] before[k], genre@),
        decreases list.len() - at,
    {
        at = at + 1;
    }
    if at < list.len() && same(list[at].as_str(), genre.as_str()) {
        assert(before[at as int] == genre@);
        return ;
    }
    list.insert(at, genre.clone());
    let ghost after = texts(list@);
    proof {
        assert(after =~= before.insert(at as int, genre@));
        assert forall|k: int| at <= k < before.len() implies precedes(
            genre@,
            #[trigger] before[k],
        ) by {
            precedes_is_total(before[at as int], genre@);
            if at < k {
                precedes_is_transitive(genre@, before[at as int], before[k]);
            }
        }
        assert forall|i: int, j: int| 0 <= i < j < after.len() implies precedes(
            #[trigger] after[i],
            #[trigger] after[j],
        ) by {
            let old_i = if i < at { i } else { i - 1 };
            let old_j = if j < at { j } else { j - 1 };
            if i != at {
                assert(after[i] == before[old_i]);
            }
            if j != at {
                assert(after[j] == before[old_j]);
            }
        }
        assert forall|g: Seq<char>| #[trigger] after.contains(g) <==> before.contains(g) || g
            == genre@ by {
            if before.contains(g) {
                let k = choose|k: int| 0 <= k < before.len() && before[k] == g;
                let new_k = if k < at { k } else { k + 1 };
                assert(after[new_k] == g);
            }
            if g == genre@ {
                assert(after[at as int] == g);
            }
            if after.contains(g) && g != genre@ {
                let k = choose|k: int| 0 <= k < after.len() && after[k] == g;
                let old_k = if k < at { k } else { k - 1 };
                assert(before[old_k] == g);
            }
        }
    }
}

/// The genres of the artists of a track, sorted and without repeats.
pub fn aggregate_genres_for_track(track_artist_ids: &[String], artist_genres: &ArtistGenres) -> (r:
    Vec<String>)
    ensures
        is_genre_list(texts(r@), texts(track_artist_ids@), artist_genres@),
        texts(r@) == genre_list(texts(track_artist_ids@), artist_genres@),
{
    let ghost ids = texts(track_artist_ids@);
    let ghost known = artist_genres@;
    let mut list: Vec<String> = Vec::new();
    let mut i: usize = 0;
    while i < track_artist_ids.len()
        invariant
            i <= track_artist_ids.len(),
            ids == texts(track_artist_ids@),
            known == artist_genres@,
            is_genre_list(texts(list@), ids.take(i as int), known),
        decreases track_artist_ids.len() - i,
    {
        let ghost done = ids.take(i as int);
        let ghost next = ids.take(i + 1);
        let ghost before = texts(list@);
        proof {
            assert(next =~= done.push(ids[i as int]));
            assert forall|g: Seq<char>| has_genre(next, known, g) <==> has_genre(done, known, g) || (
            known.contains_key(ids[i as int]) && known[ids[i as int]].contains(g)) by {
                if has_genre(done, known, g) {
                    let k = choose|k: int|
                        0 <= k < done.len() && known.contains_key(#[trigger] done[k])
                            && known[done[k]].contains(g);
                    assert(next[k] == done[k]);
                }
                if known.contains_key(ids[i as int]) && known[ids[i as int]].contains(g) {
                    assert(next[i as int] == ids[i as int]);
                }
                if has_genre(next, known, g) {
                    let k = choose|k: int|
                        0 <= k < next.len() && known.contains_key(#[trigger] next[k])
                            && known[next[k]].contains(g);
                    if k < i {
                        assert(done[k] == next[k]);
                    }
                }
            }
        }
        match artist_genres.get(track_artist_ids[i].as_str()) {
            Some(genres) => {
                let ghost own = texts(genres@);
                let mut j: usize = 0;
                while j < genres.len()
                    invariant
                        j <= genres.len(),
                        own == texts(genres@),
                        is_ascending(texts(list@)),
                        forall|g: Seq<char>| #[trigger]
                            texts(list@).contains(g) <==> before.contains(g) || own.take(
                                j as int,
                            ).contains(g),
                    decreases genres.len() - j,
                {
                    add_genre(&mut list, &genres[j]);
                    proof {
                        assert(own.take(j + 1) =~= own.take(j as int).push(own[j as int]));
                        assert forall|g: Seq<char>| #[trigger]
                            own.take(j + 1).contains(g) <==> own.take(j as int).contains(g) || g
                                == own[j as int] by {
                            if own.take(j as int).contains(g) {
                                let k = choose|k: int| 0 <= k < j && own.take(j as int)[k] == g;
                                assert(own.take(j + 1)[k] == g);
                            }
                            if g == own[j as int] {
                                assert(own.take(j + 1)[j as int] == g);
                            }
                        }
                    }
                    j = j + 1;
                }
                assert(own.take(own.len() as int) =~= own);
            },
            None => {},
        }
        i = i + 1;
    }
    assert(ids.take(ids.len() as int) =~= ids);
    proof {
        ascending_is_canonical(texts(list@), genre_list(ids, known));
    }
    list
}

/// A genre, trimmed and in lower case, is filtered out by an entry of the list of
/// excluded genres: neither is empty, and one of them is a part of the other.
pub open spec fn lower_matches(lower: Seq<char>, excluded: Seq<char>) -> bool {
    lower.len() > 0 && excluded.len() > 0 && (occurs(excluded, lower) || occurs(lower, excluded))
}

/// A genre is filtered out by an entry, whatever the genre's case and the white
/// space around it.
pub open spec fn is_excluded_by(genre: Seq<char>, excluded: Seq<char>) -> bool {
    lower_matches(lowercase(trimmed(genre)), excluded)
}

/// Some of the genres is filtered out by some of the excluded ones.
pub open spec fn is_excluded(genres: Seq<Seq<char>>, excluded: Seq<Seq<char>>) -> bool {
    exists|i: int, j: int|
        0 <= i < genres.len() && 0 <= j < excluded.len() && is_excluded_by(
            #[trigger] genres[i],
            #[trigger] excluded[j],
        )
}

/// Whether a genre, trimmed and in lower case, is filtered out by some entry.
pub fn matches_excluded(genre_lower: &str, excluded_genres: &[String]) -> (r: bool)
    ensures
        r == exists|j: int|
            0 <= j < excluded_genres@.len() && lower_matches(
                genre_lower@,
                #[trigger] texts(excluded_genres@)[j],
            ),
{
    if genre_lower.is_empty() {
        return false;
    }
    let ghost all = texts(excluded_genres@);
    let mut j: usize = 0;
    while j < excluded_genres.len()
        invariant
            j <= excluded_genres.len(),
            all == texts(excluded_genres@),
            genre_lower@.len() > 0,
            forall|k: int| 0 <= k < j ==> !lower_matches(genre_lower@, #[trigger] all[k]),
        decreases excluded_genres.len() - j,
    {
        let excluded = excluded_genres[j].as_str();
        assert(all[j as int] == excluded@);
        if !excluded.is_empty() && (contains(genre_lower, excluded) || contains(
            excluded,
            genre_lower,
        )) {
            return true;
        }
        j = j + 1;
    }
    false
}

/// Whether a track with these genres is to be left out.
pub fn should_exclude_track(track_genres: &[String], excluded_genres: &[String]) -> (r: bool)
    ensures
        r == is_excluded(texts(track_genres@), texts(excluded_genres@)),
{
    let ghost genres = texts(track_genres@);
    let ghost excluded = texts(excluded_genres@);
    let mut i: usize = 0;
    while i < track_genres.len()
        invariant
            i <= track_genres.len(),
            genres == texts(track_genres@),
            excluded == texts(excluded_genres@),
            forall|k: int, j: int|
                0 <= k < i && 0 <= j < excluded.len() ==> !is_excluded_by(
                    #[trigger] genres[k],
                    #[trigger] excluded[j],
                ),
        decreases track_genres.len() - i,
    {
        let lower = to_lowercase(trim(track_genres[i].as_str()));
        assert(genres[i as int] == track_genres@[i as int]@);
        if matches_excluded(lower.as_str(), excluded_genres) {
            proof {
                let j = choose|j: int|
                    0 <= j < excluded_genres@.len() && lower_matches(
                        lower@,
                        #[trigger] texts(excluded_genres@)[j],
                    );
                assert(is_excluded_by(genres[i as int], excluded[j]));
            }
            return true;
        }
        i = i + 1;
    }
    false
}

/// A track of no known genre is never left out.
pub proof fn no_genres_no_exclusion(excluded: Seq<Seq<char>>)
    ensures
        !is_excluded(Seq::<Seq<char>>::empty(), excluded),
{
}

/// A genre that is empty, or white space alone, is filtered out by nothing.
pub proof fn empty_genres_are_not_excluded(genre: Seq<char>, excluded: Seq<char>)
    requires
        trimmed(genre).len() == 0,
    ensures
        !is_excluded_by(genre, excluded),
{
    assert(is_ascii_text(trimmed(genre)));
}

/// The case of a genre does not matter: one in ASCII letters is filtered out by an
/// entry exactly if its lower case is.
pub proof fn case_does_not_matter(genre: Seq<char>, excluded: Seq<char>)
    requires
        is_ascii_text(trimmed(genre)),
    ensures
        is_excluded_by(genre, excluded) == lower_matches(
            trimmed(genre).map_values(|c: char| ascii_lower(c)),
            excluded,
        ),
{
}

/// Where nothing is excluded, no track is left out.
pub proof fn nothing_excluded_nothing_left_out(genres: Seq<Seq<char>>)
    ensures
        !is_excluded(genres, Seq::<Seq<char>>::empty()),
{
}

/// Empty entries among the excluded genres make no difference: they match
/// nothing, rather than everything. Nor does the order of the entries, or a repeat.
pub proof fn empty_entries_match_nothing(
    genres: Seq<Seq<char>>,
    excluded: Seq<Seq<char>>,
    others: Seq<Seq<char>>,
)
    requires
        forall|e: Seq<char>|
            e.len() > 0 ==> (#[trigger] excluded.contains(e) <==> others.contains(e)),
    ensures
        is_excluded(genres, excluded) == is_excluded(genres, others),
{
    if is_excluded(genres, excluded) {
        let (i, j) = choose|i: int, j: int|
            0 <= i < genres.len() && 0 <= j < excluded.len() && is_excluded_by(
                #[trigger] genres[i],
                #[trigger] excluded[j],
            );
        assert(excluded.contains(excluded[j]));
        let k = choose|k: int| 0 <= k < others.len() && others[k] == excluded[j];
        assert(is_excluded_by(genres[i], others[k]));
    }
    if is_excluded(genres, others) {
        let (i, j) = choose|i: int, j: int|
            0 <= i < genres.len() && 0 <= j < others.len() && is_excluded_by(
                #[trigger] genres[i],
                #[trigger] others[j],
            );
        assert(others.contains(others[j]));
        assert(excluded.contains(others[j]));
        let k = choose|k: int| 0 <= k < excluded.len() && excluded[k] == others[j];
        assert(is_excluded_by(genres[i], excluded[k]));
    }
}

/// The entries of a list of pieces, trimmed and in lower case, without those that
/// are then empty.
pub open spec fn cleaned(entries: Seq<Seq<char>>) -> Seq<Seq<char>>
    decreases entries.len(),
{
    if entries.len() == 0 {
        Seq::empty()
    } else {
        let before = cleaned(entries.drop_last());
        let entry = lowercase(trimmed(entries.last()));
        if entry.len() > 0 {
            before.push(entry)
        } else {
            before
        }
    }
}

/// The excluded genres of a setting: its entries between commas; `comedy` where
/// nothing is set.
pub open spec fn excluded_of(setting: Option<Seq<char>>) -> Seq<Seq<char>> {
    match setting {
        Some(s) => cleaned(pieces(s, ',')),
        None => seq!["comedy"@],
    }
}

/// Reads the list of genres to filter out of the recently played tracks. Entries
/// are trimmed before the empty ones are dropped, so that no empty entry is left.
pub fn parse_excluded_genres(setting: &Option<String>) -> (r: Vec<String>)
    ensures
        texts(r@) == excluded_of(crate::text::opt_text(*setting)),
{
    let mut list: Vec<String> = Vec::new();
    let entries = match setting {
        Some(s) => split(s.as_str(), ','),
        None => {
            list.push("comedy".to_owned());
            assert(texts(list@) =~= seq!["comedy"@]);
            return list;
        },
    };
    let ghost all = texts(entries@);
    let mut i: usize = 0;
    assert(texts(list@) =~= cleaned(all.take(0)));
    while i < entries.len()
        invariant
            i <= entries.len(),
            all == texts(entries@),
            texts(list@) == cleaned(all.take(i as int)),
        decreases entries.len() - i,
    {
        let ghost before = texts(list@);
        assert(all.take(i + 1).drop_last() =~= all.take(i as int));
        assert(all.take(i + 1).last() == entries@[i as int]@);
        let entry = to_lowercase(trim(entries[i].as_str()));
        if !entry.as_str().is_empty() {
            list.push(entry);
            assert(texts(list@) =~= before.push(entry@));
        }
        i = i + 1;
    }
    assert(all.take(all.len() as int) =~= all);
    list
}

/// No excluded genre is empty, whatever the setting.
pub proof fn no_empty_entries(entries: Seq<Seq<char>>)
    ensures
        forall|i: int| 0 <= i < cleaned(entries).len() ==> (#[trigger] cleaned(entries)[i]).len() > 0,
    decreases entries.len(),
{
    if entries.len() > 0 {
        let before = cleaned(entries.drop_last());
        let after = cleaned(entries);
        no_empty_entries(entries.drop_last());
        assert forall|i: int| 0 <= i < after.len() implies (#[trigger] after[i]).len() > 0 by {
            if i < before.len() {
                assert(after[i] == before[i]);
            }
        }
    }
}

/// A copy of the genres of one artist.
pub(crate) fn copy_genres(artist_genres: &ArtistGenres, id: &str) -> (r: Option<Vec<String>>)
    ensures
        match r {
            Some(v) => artist_genres@.contains_key(id@) && artist_genres@[id@] == texts(v@),
            None => !artist_genres@.contains_key(id@),
        },
{
    match artist_genres.get(id) {
        Some(v) => Some(copy_texts(v)),
        None => None,
    }
}

proof fn lemma_add_member(list: Seq<Seq<char>>, genre: Seq<char>) -> (r: Seq<Seq<char>>)
    requires
        is_ascending(list),
    ensures
        is_ascending(r),
        forall|g: Seq<char>| #[trigger] r.contains(g) <==> list.contains(g) || g == genre,
    decreases list.len(),
{
    if list.len() == 0 || precedes(list.last(), genre) {
        let r = list.push(genre);
        assert forall|i: int, j: int| 0 <= i < j < r.len() implies precedes(
            #[trigger] r[i],
            #[trigger] r[j],
        ) by {
            if j == list.len() && i < list.len() - 1 {
                assert(precedes(list[i], list[list.len() - 1]));
                precedes_is_transitive(list[i], list.last(), genre);
            }
        }
        assert forall|g: Seq<char>| #[trigger] r.contains(g) <==> list.contains(g) || g == genre by {
            if list.contains(g) {
                let k = choose|k: int| 0 <= k < list.len() && list[k] == g;
                assert(r[k] == g);
            }
            if r.contains(g) && g != genre {
                let k = choose|k: int| 0 <= k < r.len() && r[k] == g;
                assert(list[k] == g);
            }
            assert(r[list.len() as int] == genre);
        }
        r
    } else if list.last() == genre {
        assert(list[list.len() - 1] == genre);
        list
    } else {
        let init = list.drop_last();
        precedes_is_total(list.last(), genre);
        assert(is_ascending(init));
        let front = lemma_add_member(init, genre);
        let r = front.push(list.last());
        assert forall|i: int, j: int| 0 <= i < j < r.len() implies precedes(
            #[trigger] r[i],
            #[trigger] r[j],
        ) by {
            if j == front.len() {
                assert(front.contains(front[i]));
                if front[i] != genre {
                    let k = choose|k: int| 0 <= k < init.len() && init[k] == front[i];
                    assert(precedes(list[k], list[list.len() - 1]));
                }
            }
        }
        assert forall|g: Seq<char>| #[trigger] r.contains(g) <==> list.contains(g) || g == genre by {
            if list.contains(g) {
                let k = choose|k: int| 0 <= k < list.len() && list[k] == g;
                if k < init.len() {
                    assert(init[k] == g);
                    assert(front.contains(g));
                    let m = choose|m: int| 0 <= m < front.len() && front[m] == g;
                    assert(r[m] == g);
                } else {
                    assert(r[front.len() as int] == g);
                }
            }
            if g == genre {
                assert(front.contains(g));
                let m = choose|m: int| 0 <= m < front.len() && front[m] == g;
                assert(r[m] == g);
            }
            if r.contains(g) && g != genre {
                let k = choose|k: int| 0 <= k < r.len() && r[k] == g;
                if k < front.len() {
                    assert(front.contains(front[k]));
                    let m = choose|m: int| 0 <= m < init.len() && init[m] == g;
                    assert(list[m] == g);
                } else {
                    assert(list[list.len() - 1] == g);
                }
            }
        }
        r
    }
}

proof fn lemma_add_members(list: Seq<Seq<char>>, more: Seq<Seq<char>>) -> (r: Seq<Seq<char>>)
    requires
        is_ascending(list),
    ensures
        is_ascending(r),
        forall|g: Seq<char>| #[trigger] r.contains(g) <==> list.contains(g) || more.contains(g),
    decreases more.len(),
{
    if more.len() == 0 {
        list
    } else {
        let init = more.drop_last();
        let front = lemma_add_members(list, init);
        let r = lemma_add_member(front, more.last());
        assert forall|g: Seq<char>| #[trigger] r.contains(g) <==> list.contains(g) || more.contains(
            g,
        ) by {
            if more.contains(g) {
                let k = choose|k: int| 0 <= k < more.len() && more[k] == g;
                if k < init.len() {
                    assert(init[k] == g);
                }
                assert(front.contains(g) || g == more.last());
            }
            if r.contains(g) && g != more.last() {
                assert(front.contains(g));
                if init.contains(g) {
                    let k = choose|k: int| 0 <= k < init.len() && init[k] == g;
                    assert(more[k] == g);
                }
            }
            assert(more[more.len() - 1] == more.last());
        }
        r
    }
}

proof fn lemma_some_list(ids: Seq<Seq<char>>, genres: Map<Seq<char>, Seq<Seq<char>>>) -> (r: Seq<
    Seq<char>,
>)
    ensures
        is_genre_list(r, ids, genres),
    decreases ids.len(),
{
    if ids.len() == 0 {
        Seq::empty()
    } else {
        let init = ids.drop_last();
        let id = ids.last();
        let front = lemma_some_list(init, genres);
        let own = if genres.contains_key(id) {
            genres[id]
        } else {
            Seq::empty()
        };
        let r = lemma_add_members(front, own);
        assert forall|g: Seq<char>| #[trigger] r.contains(g) <==> has_genre(ids, genres, g) by {
            if has_genre(init, genres, g) {
                let k = choose|k: int|
                    0 <= k < init.len() && genres.contains_key(#[trigger] init[k])
                        && genres[init[k]].contains(g);
                assert(ids[k] == init[k]);
            }
            if has_genre(ids, genres, g) {
                let k = choose|k: int|
                    0 <= k < ids.len() && genres.contains_key(#[trigger] ids[k])
                        && genres[ids[k]].contains(g);
                if k < init.len() {
                    assert(init[k] == ids[k]);
                    assert(has_genre(init, genres, g));
                }
                assert(front.contains(g) || own.contains(g));
            }
            assert(ids[ids.len() - 1] == id);
            assert(front.contains(g) <==> has_genre(init, genres, g));
        }
        r
    }
}

/// The genres of a track are those that are known of its artists, of every one of
/// them, and no others; they stand in the order of texts, each once.
pub proof fn a_track_has_the_genres_of_its_artists(
    ids: Seq<Seq<char>>,
    genres: Map<Seq<char>, Seq<Seq<char>>>,
    genre: Seq<char>,
)
    ensures
        genre_list(ids, genres).contains(genre) <==> exists|i: int|
            0 <= i < ids.len() && genres.contains_key(#[trigger] ids[i])
                && genres[ids[i]].contains(genre),
        forall|i: int, j: int|
            0 <= i < j < genre_list(ids, genres).len() ==> precedes(
                #[trigger] genre_list(ids, genres)[i],
                #[trigger] genre_list(ids, genres)[j],
            ),
        genre_list(ids, genres).no_duplicates(),
{
    let witness = lemma_some_list(ids, genres);
    assert(is_genre_list(genre_list(ids, genres), ids, genres));
    let list = genre_list(ids, genres);
    assert(list.contains(genre) <==> has_genre(ids, genres, genre));
    assert forall|i: int, j: int| 0 <= i < list.len() && 0 <= j < list.len() && i != j implies list[i]
        != list[j] by {
        precedes_is_irreflexive(list[i]);
    }
}

/// A genre that an entry is a part of is filtered out by it, wherever the entry stands
/// in it; and so is a genre that is a part of the entry.
pub proof fn parts_are_matched(front: Seq<char>, part: Seq<char>, back: Seq<char>)
    requires
        part.len() > 0,
    ensures
        lower_matches(front + part + back, part),
        lower_matches(part, front + part + back),
{
    parts_occur(front, part, back);
}

/// What is matched is a part of what matches it, or the other way round, and neither
/// is empty.
pub proof fn only_parts_are_matched(lower: Seq<char>, excluded: Seq<char>)
    requires
        lower_matches(lower, excluded),
    ensures
        lower.len() > 0,
        excluded.len() > 0,
        (exists|front: Seq<char>, back: Seq<char>| lower == #[trigger] (front + excluded + back))
            || (exists|front: Seq<char>, back: Seq<char>|
            excluded == #[trigger] (front + lower + back)),
{
    if occurs(excluded, lower) {
        what_occurs_is_a_part(excluded, lower);
    } else {
        what_occurs_is_a_part(lower, excluded);
    }
}

/// A genre that holds an entry is filtered out by it, and a genre that an entry holds,
/// if it is in lower case and has no white space at its ends.
pub proof fn genres_that_share_a_part_are_excluded(
    front: Seq<char>,
    part: Seq<char>,
    back: Seq<char>,
)
    requires
        part.len() > 0,
    ensures
        ({
            let whole = front + part + back;
            &&& trimmed(whole) == whole && lowercase(whole) == whole ==> is_excluded_by(whole, part)
            &&& trimmed(part) == part && lowercase(part) == part ==> is_excluded_by(part, whole)
        }),
{
    parts_are_matched(front, part, back);
}

/// White space around a genre does not matter.
pub proof fn white_space_around_a_genre_does_not_matter(
    front: Seq<char>,
    genre: Seq<char>,
    back: Seq<char>,
    excluded: Seq<char>,
)
    requires
        is_blank(front),
        is_blank(back),
    ensures
        is_excluded_by(front + genre + back, excluded) == is_excluded_by(genre, excluded),
{
    white_space_around_is_trimmed(front, genre, back);
}

/// Genres that differ only in the case of ASCII letters are filtered out alike.
pub proof fn genres_in_any_case_are_alike(a: Seq<char>, b: Seq<char>, excluded: Seq<char>)
    requires
        trimmed(a) == a,
        trimmed(b) == b,
        is_ascii_text(a),
        is_ascii_text(b),
        a.len() == b.len(),
        forall|i: int|
            0 <= i < a.len() ==> ascii_lower(#[trigger] a[i]) == ascii_lower(#[trigger] b[i]),
    ensures
        is_excluded_by(a, excluded) == is_excluded_by(b, excluded),
{
    assert(lowercase(a) =~= lowercase(b));
}

/// A track is left out if any of its genres is filtered out by any of the entries: one
/// genre and one entry decide, and the others do not matter.
pub proof fn one_genre_and_one_entry_suffice(
    genres: Seq<Seq<char>>,
    excluded: Seq<Seq<char>>,
    i: int,
    j: int,
)
    requires
        0 <= i < genres.len(),
        0 <= j < excluded.len(),
        lower_matches(lowercase(trimmed(genres[i])), excluded[j]),
    ensures
        is_excluded(genres, excluded),
{
    assert(is_excluded_by(genres[i], excluded[j]));
}

/// A track is not left out if none of its genres shares a part with any entry.
pub proof fn no_match_no_exclusion(genres: Seq<Seq<char>>, excluded: Seq<Seq<char>>)
    requires
        forall|i: int, j: int|
            0 <= i < genres.len() && 0 <= j < excluded.len() ==> !lower_matches(
                lowercase(trimmed(#[trigger] genres[i])),
                #[trigger] excluded[j],
            ),
    ensures
        !is_excluded(genres, excluded),
{
}

/// The entries of a list are cleaned one by one, in their order: each is trimmed and
/// put in lower case, and goes only if nothing is left of it.
pub proof fn entries_are_cleaned_one_by_one(
    front: Seq<Seq<char>>,
    entry: Seq<char>,
    back: Seq<Seq<char>>,
)
    ensures
        cleaned(front + back) == cleaned(front) + cleaned(back),
        cleaned(seq![entry]).len() <= 1,
        cleaned(seq![entry]).len() == 1 <==> lowercase(trimmed(entry)).len() > 0,
        cleaned(seq![entry]).len() == 1 ==> cleaned(seq![entry])[0] == lowercase(trimmed(entry)),
    decreases back.len(),
{
    let one = seq![entry];
    assert(one.drop_last() =~= Seq::empty());
    assert(cleaned(one.drop_last()) =~= Seq::empty());
    if back.len() > 0 {
        entries_are_cleaned_one_by_one(front, entry, back.drop_last());
        assert((front + back).drop_last() =~= front + back.drop_last());
        assert(cleaned(front + back) =~= cleaned(front) + cleaned(back));
    } else {
        assert(front + back =~= front);
        assert(cleaned(front) + cleaned(back) =~= cleaned(front));
    }
}

/// The setting lists the excluded genres between commas; where there is no setting,
/// comedy is excluded and nothing else.
pub proof fn the_setting_lists_the_excluded_genres(entries: Seq<Seq<char>>, setting: Seq<char>)
    requires
        pieces(setting, ',') == entries,
    ensures
        glued(entries, ',') == setting,
        excluded_of(Some(setting)) == cleaned(entries),
        excluded_of(None).len() == 1,
        excluded_of(None)[0] == "comedy"@,
{
    pieces_are_glued_back(setting, ',');
}

} // verus!

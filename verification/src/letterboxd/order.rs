//! The most recent movies first.

use crate::letterboxd::movie::{movie_views, LetterboxdMovie, MovieView};
use crate::text::{is_before, precedes};
use vstd::prelude::*;

verus! {

/// The instant that an RFC 2822 date names, in seconds since 1970 and nanoseconds
/// of the second, or none if the text is no such date.
pub uninterp spec fn rfc2822_instant(date: Seq<char>) -> Option<(i64, u32)>;

/// `chrono::DateTime::parse_from_rfc2822`: the date and time that the text holds,
/// as its UNIX timestamp and the nanoseconds behind it, or none if the text does
/// not parse; a function of the text alone.
#[verifier::external_body]
pub(crate) fn parse_date(date: &str) -> (r: Option<(i64, u32)>)
    ensures
        r == rfc2822_instant(date@),
{
    match chrono::DateTime::parse_from_rfc2822(date) {
        Ok(instant) => Some((instant.timestamp(), instant.timestamp_subsec_nanos())),
        Err(_) => None,
    }
}

/// An instant is behind another.
pub open spec fn is_later(a: (i64, u32), b: (i64, u32)) -> bool {
    b.0 < a.0 || (b.0 == a.0 && b.1 < a.1)
}

/// A movie goes strictly in front of another: it is the more recent of the two,
/// by the instants of their dates, or by the texts of the dates where one of them
/// names no instant. A movie without a date goes in front of all that have one.
pub open spec fn goes_first(a: MovieView, b: MovieView) -> bool {
    match (a.pub_date, b.pub_date) {
        (Some(a_date), Some(b_date)) => dated_first(
            a_date,
            rfc2822_instant(a_date),
            b_date,
            rfc2822_instant(b_date),
        ),
        (None, Some(_)) => true,
        _ => false,
    }
}

/// Of two dates, with the instants that they name, the first is the more recent.
pub open spec fn dated_first(
    a_date: Seq<char>,
    a_instant: Option<(i64, u32)>,
    b_date: Seq<char>,
    b_instant: Option<(i64, u32)>,
) -> bool {
    match (a_instant, b_instant) {
        (Some(a), Some(b)) => is_later(a, b),
        _ => precedes(b_date, a_date),
    }
}

/// Whether the first of two dates is the more recent, given the instants that
/// they name.
pub fn is_more_recent(
    a_date: &str,
    a_instant: Option<(i64, u32)>,
    b_date: &str,
    b_instant: Option<(i64, u32)>,
) -> (r: bool)
    ensures
        r == dated_first(a_date@, a_instant, b_date@, b_instant),
{
    match (a_instant, b_instant) {
        (Some(a), Some(b)) => b.0 < a.0 || (b.0 == a.0 && b.1 < a.1),
        _ => is_before(b_date, a_date),
    }
}

/// Whether a movie goes strictly in front of another.
pub fn sorts_before(a: &LetterboxdMovie, b: &LetterboxdMovie) -> (r: bool)
    ensures
        r == goes_first(a@, b@),
{
    match (&a.pub_date, &b.pub_date) {
        (Some(a_date), Some(b_date)) => is_more_recent(
            a_date.as_str(),
            parse_date(a_date.as_str()),
            b_date.as_str(),
            parse_date(b_date.as_str()),
        ),
        (None, Some(_)) => true,
        _ => false,
    }
}

/// The movies with one more, behind the last of them that it does not go in front
/// of.
pub open spec fn placed(movies: Seq<MovieView>, movie: MovieView) -> Seq<MovieView>
    decreases movies.len(),
{
    if movies.len() == 0 || !goes_first(movie, movies.last()) {
        movies.push(movie)
    } else {
        placed(movies.drop_last(), movie).push(movies.last())
    }
}

/// The movies, most recent first; those that no date tells apart stay in their
/// order.
pub open spec fn newest_first(movies: Seq<MovieView>) -> Seq<MovieView>
    decreases movies.len(),
{
    if movies.len() == 0 {
        Seq::empty()
    } else {
        placed(newest_first(movies.drop_last()), movies.last())
    }
}

proof fn lemma_placed_at(movies: Seq<MovieView>, movie: MovieView, at: int)
    requires
        0 <= at <= movies.len(),
        at == 0 || !goes_first(movie, movies[at - 1]),
        forall|k: int| at <= k < movies.len() ==> goes_first(movie, #[trigger] movies[k]),
    ensures
        placed(movies, movie) == movies.insert(at, movie),
    decreases movies.len(),
{
    if at < movies.len() {
        lemma_placed_at(movies.drop_last(), movie, at);
        assert(movies.drop_last().insert(at, movie).push(movies.last()) =~= movies.insert(
            at,
            movie,
        ));
    } else {
        assert(movies.push(movie) =~= movies.insert(at, movie));
    }
}

/// Sorts movies by publication date, most recent first.
pub fn sort_by_recency(movies: Vec<LetterboxdMovie>) -> (r: Vec<LetterboxdMovie>)
    ensures
        movie_views(r@) == newest_first(movie_views(movies@)),
{
    let ghost all = movie_views(movies@);
    let mut sorted: Vec<LetterboxdMovie> = Vec::new();
    let mut i: usize = 0;
    assert(movie_views(sorted@) =~= newest_first(all.take(0)));
    while i < movies.len()
        invariant
            i <= movies.len(),
            all == movie_views(movies@),
            movie_views(sorted@) == newest_first(all.take(i as int)),
        decreases movies.len() - i,
    {
        let movie = movies[i].clone();
        let ghost before = movie_views(sorted@);
        let mut at: usize = sorted.len();
        while at > 0 && sorts_before(&movie, &sorted[at - 1])
            invariant
                at <= sorted.len(),
                before == movie_views(sorted@),
                forall|k: int|
                    at <= k < before.len() ==> goes_first(movie@, #[trigger] before[k]),
            decreases at,
        {
            at = at - 1;
        }
        proof {
            lemma_placed_at(before, movie@, at as int);
            assert(all.take(i + 1).drop_last() =~= all.take(i as int));
        }
        sorted.insert(at, movie);
        assert(movie_views(sorted@) =~= before.insert(at as int, movie@));
        i = i + 1;
    }
    assert(all.take(all.len() as int) =~= all);
    sorted
}

proof fn lemma_placed_multiset(movies: Seq<MovieView>, movie: MovieView)
    ensures
        placed(movies, movie).to_multiset() == movies.to_multiset().insert(movie),
        placed(movies, movie).len() == movies.len() + 1,
    decreases movies.len(),
{
    broadcast use vstd::seq_lib::group_to_multiset_ensures;

    if movies.len() > 0 && goes_first(movie, movies.last()) {
        lemma_placed_multiset(movies.drop_last(), movie);
        assert(movies.drop_last().push(movies.last()) =~= movies);
        assert(placed(movies, movie).to_multiset() =~= movies.to_multiset().insert(movie));
    }
}

/// Sorting loses no movie and adds none.
pub proof fn sorting_keeps_the_movies(movies: Seq<MovieView>)
    ensures
        newest_first(movies).to_multiset() == movies.to_multiset(),
        newest_first(movies).len() == movies.len(),
    decreases movies.len(),
{
    broadcast use vstd::seq_lib::group_to_multiset_ensures;

    if movies.len() > 0 {
        sorting_keeps_the_movies(movies.drop_last());
        lemma_placed_multiset(newest_first(movies.drop_last()), movies.last());
        assert(movies.drop_last().push(movies.last()) =~= movies);
    } else {
        assert(movies =~= Seq::empty());
    }
}

/// Of two movies at most one goes in front of the other.
pub proof fn goes_first_is_asymmetric(a: MovieView, b: MovieView)
    ensures
        !(goes_first(a, b) && goes_first(b, a)),
{
    if let (Some(a_date), Some(b_date)) = (a.pub_date, b.pub_date) {
        if precedes(a_date, b_date) && precedes(b_date, a_date) {
            crate::text::precedes_is_transitive(a_date, b_date, a_date);
        }
        crate::text::precedes_is_irreflexive(a_date);
    }
}

/// No movie goes in front of its predecessor.
pub open spec fn neighbours_in_order(movies: Seq<MovieView>) -> bool {
    forall|i: int|
        #![trigger movies[i]]
        0 < i < movies.len() ==> !goes_first(movies[i], movies[i - 1])
}

/// No movie goes in front of one that stands before it.
pub open spec fn all_in_order(movies: Seq<MovieView>) -> bool {
    forall|i: int, j: int|
        0 <= i < j < movies.len() ==> !goes_first(#[trigger] movies[j], #[trigger] movies[i])
}

proof fn lemma_placed_neighbours(movies: Seq<MovieView>, movie: MovieView)
    requires
        neighbours_in_order(movies),
    ensures
        neighbours_in_order(placed(movies, movie)),
        placed(movies, movie).len() == movies.len() + 1,
        placed(movies, movie).last() == movie || (movies.len() > 0 && placed(movies, movie).last()
            == movies.last() && goes_first(movie, movies.last())),
    decreases movies.len(),
{
    if movies.len() > 0 && goes_first(movie, movies.last()) {
        let init = movies.drop_last();
        assert forall|i: int| #![trigger init[i]] 0 < i < init.len() implies !goes_first(
            init[i],
            init[i - 1],
        ) by {
            assert(movies[i] == init[i]);
        }
        lemma_placed_neighbours(init, movie);
        let p = placed(init, movie);
        let q = placed(movies, movie);
        goes_first_is_asymmetric(movie, movies.last());
        assert forall|i: int| #![trigger q[i]] 0 < i < q.len() implies !goes_first(
            q[i],
            q[i - 1],
        ) by {
            if i < p.len() {
                assert(q[i] == p[i] && q[i - 1] == p[i - 1]);
            } else {
                assert(q[i] == movies[movies.len() - 1]);
                assert(q[i - 1] == p.last());
            }
        }
    } else {
        let q = placed(movies, movie);
        assert forall|i: int| #![trigger q[i]] 0 < i < q.len() implies !goes_first(
            q[i],
            q[i - 1],
        ) by {
            if i < movies.len() {
                assert(q[i] == movies[i] && q[i - 1] == movies[i - 1]);
            }
        }
    }
}

/// Whatever the dates are, no movie goes in front of its predecessor.
pub proof fn neighbours_are_in_order(movies: Seq<MovieView>)
    ensures
        neighbours_in_order(newest_first(movies)),
    decreases movies.len(),
{
    if movies.len() > 0 {
        neighbours_are_in_order(movies.drop_last());
        lemma_placed_neighbours(newest_first(movies.drop_last()), movies.last());
    }
}

/// The dates of the movies order them without a contradiction: if no movie of
/// three goes in front of its predecessor, the last does not go in front of the
/// first.
pub open spec fn dates_agree(movies: Seq<MovieView>) -> bool {
    forall|i: int, j: int, k: int|
        0 <= i < movies.len() && 0 <= j < movies.len() && 0 <= k < movies.len() && !goes_first(
            #[trigger] movies[j],
            #[trigger] movies[i],
        ) && !goes_first(#[trigger] movies[k], movies[j]) ==> !goes_first(movies[k], movies[i])
}

/// The date of the movie, if it has one, names an instant.
pub open spec fn has_readable_date(m: MovieView) -> bool {
    m.pub_date matches Some(date) ==> rfc2822_instant(date) is Some
}

/// The date of the movie, if it has one, names no instant.
pub open spec fn has_unreadable_date(m: MovieView) -> bool {
    m.pub_date matches Some(date) ==> rfc2822_instant(date) is None
}

/// Dates that all name an instant agree, and so do dates of which none does.
pub proof fn dates_of_one_kind_agree(movies: Seq<MovieView>)
    requires
        (forall|k: int| 0 <= k < movies.len() ==> has_readable_date(#[trigger] movies[k])) || (
        forall|k: int| 0 <= k < movies.len() ==> has_unreadable_date(#[trigger] movies[k])),
    ensures
        dates_agree(movies),
{
    assert forall|i: int, j: int, k: int|
        0 <= i < movies.len() && 0 <= j < movies.len() && 0 <= k < movies.len() && !goes_first(
            #[trigger] movies[j],
            #[trigger] movies[i],
        ) && !goes_first(#[trigger] movies[k], movies[j]) implies !goes_first(
        movies[k],
        movies[i],
    ) by {
        if let (Some(a), Some(b), Some(c)) = (
            movies[i].pub_date,
            movies[j].pub_date,
            movies[k].pub_date,
        ) {
            if has_unreadable_date(movies[i]) {
                crate::text::precedes_is_total(a, b);
                crate::text::precedes_is_total(b, c);
                crate::text::precedes_is_irreflexive(a);
                if precedes(b, a) && precedes(c, b) {
                    crate::text::precedes_is_transitive(c, b, a);
                }
                if precedes(a, c) && precedes(c, a) {
                    crate::text::precedes_is_transitive(a, c, a);
                }
            }
        }
    }
}

proof fn lemma_neighbours_to_all(movies: Seq<MovieView>, i: int, j: int)
    requires
        neighbours_in_order(movies),
        dates_agree(movies),
        0 <= i < j < movies.len(),
    ensures
        !goes_first(movies[j], movies[i]),
    decreases j - i,
{
    assert(!goes_first(movies[j], movies[j - 1]));
    if i + 1 < j {
        lemma_neighbours_to_all(movies, i, j - 1);
    }
}

proof fn lemma_same_elements(a: Seq<MovieView>, b: Seq<MovieView>, k: int)
    requires
        a.to_multiset() == b.to_multiset(),
        0 <= k < a.len(),
    ensures
        exists|m: int| 0 <= m < b.len() && #[trigger] b[m] == a[k],
{
    broadcast use vstd::seq_lib::group_to_multiset_ensures;

    assert(a.contains(a[k]));
    assert(a.to_multiset().count(a[k]) > 0);
    assert(b.contains(a[k]));
}

proof fn lemma_sorted_dates_agree(movies: Seq<MovieView>)
    requires
        dates_agree(movies),
    ensures
        dates_agree(newest_first(movies)),
{
    let sorted = newest_first(movies);
    sorting_keeps_the_movies(movies);
    assert forall|i: int, j: int, k: int|
        0 <= i < sorted.len() && 0 <= j < sorted.len() && 0 <= k < sorted.len() && !goes_first(
            #[trigger] sorted[j],
            #[trigger] sorted[i],
        ) && !goes_first(#[trigger] sorted[k], sorted[j]) implies !goes_first(
        sorted[k],
        sorted[i],
    ) by {
        lemma_same_elements(sorted, movies, i);
        lemma_same_elements(sorted, movies, j);
        lemma_same_elements(sorted, movies, k);
        let a = choose|m: int| 0 <= m < movies.len() && #[trigger] movies[m] == sorted[i];
        let b = choose|m: int| 0 <= m < movies.len() && #[trigger] movies[m] == sorted[j];
        let c = choose|m: int| 0 <= m < movies.len() && #[trigger] movies[m] == sorted[k];
        assert(!goes_first(movies[b], movies[a]));
        assert(!goes_first(movies[c], movies[b]));
    }
}

/// Where the dates agree, the movies come out most recent first, those without a
/// date in front.
pub proof fn agreeing_dates_are_sorted(movies: Seq<MovieView>)
    requires
        dates_agree(movies),
    ensures
        all_in_order(newest_first(movies)),
{
    let sorted = newest_first(movies);
    neighbours_are_in_order(movies);
    lemma_sorted_dates_agree(movies);
    assert forall|i: int, j: int| 0 <= i < j < sorted.len() implies !goes_first(
        #[trigger] sorted[j],
        #[trigger] sorted[i],
    ) by {
        lemma_neighbours_to_all(sorted, i, j);
    }
}

/// Of two movies whose dates name instants the one with the later instant goes first;
/// of dates of which one names none, the greater text; a movie without a date goes in
/// front of every movie that has one.
pub proof fn later_dates_go_first(a: MovieView, b: MovieView)
    ensures
        a.pub_date is None ==> (goes_first(a, b) <==> b.pub_date is Some),
        b.pub_date is None ==> !goes_first(a, b),
        a.pub_date matches Some(a_date) ==> (b.pub_date matches Some(b_date) ==> (match (
            rfc2822_instant(a_date),
            rfc2822_instant(b_date),
        ) {
            (Some(x), Some(y)) => goes_first(a, b) <==> x.0 > y.0 || (x.0 == y.0 && x.1 > y.1),
            _ => goes_first(a, b) <==> precedes(b_date, a_date),
        })),
{
}

/// Movies that stand in order already stay as they are, those that no date tells
/// apart among them.
pub proof fn ordered_movies_stay(movies: Seq<MovieView>)
    requires
        neighbours_in_order(movies),
    ensures
        newest_first(movies) == movies,
    decreases movies.len(),
{
    if movies.len() > 0 {
        let init = movies.drop_last();
        assert forall|i: int| #![trigger init[i]] 0 < i < init.len() implies !goes_first(
            init[i],
            init[i - 1],
        ) by {
            assert(movies[i] == init[i]);
        }
        ordered_movies_stay(init);
        assert(init.push(movies.last()) =~= movies);
        if init.len() > 0 {
            assert(init.last() == movies[movies.len() - 2]);
            assert(!goes_first(movies[movies.len() - 1], movies[movies.len() - 2]));
        }
    } else {
        assert(movies =~= Seq::empty());
    }
}

proof fn lemma_placed_filter(movies: Seq<MovieView>, movie: MovieView, date: Option<Seq<char>>)
    ensures
        ({
            let own = |m: MovieView| m.pub_date == date;
            placed(movies, movie).filter(own) == (if own(movie) {
                movies.filter(own).push(movie)
            } else {
                movies.filter(own)
            })
        }),
    decreases movies.len(),
{
    reveal(Seq::filter);
    let own = |m: MovieView| m.pub_date == date;
    if movies.len() > 0 && goes_first(movie, movies.last()) {
        let init = movies.drop_last();
        lemma_placed_filter(init, movie, date);
        let front = placed(init, movie);
        assert(front.push(movies.last()).drop_last() =~= front);
        if own(movie) && own(movies.last()) {
            if let Some(d) = date {
                crate::text::precedes_is_irreflexive(d);
            }
        }
    } else {
        assert(movies.push(movie).drop_last() =~= movies);
    }
}

/// Movies of one date, and those without one, keep among themselves the order in which
/// they came, whatever stands between them.
pub proof fn movies_of_one_date_keep_their_order(movies: Seq<MovieView>, date: Option<Seq<char>>)
    ensures
        newest_first(movies).filter(|m: MovieView| m.pub_date == date) == movies.filter(
            |m: MovieView| m.pub_date == date,
        ),
    decreases movies.len(),
{
    reveal(Seq::filter);
    if movies.len() > 0 {
        movies_of_one_date_keep_their_order(movies.drop_last(), date);
        lemma_placed_filter(newest_first(movies.drop_last()), movies.last(), date);
    } else {
        assert(newest_first(movies) =~= movies);
    }
}

} // verus!

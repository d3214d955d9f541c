//! One movie per film: what the entries of a film say together.

use crate::letterboxd::item::{item_views, movie_of, read_movie, FeedItem, ItemView};
use crate::letterboxd::movie::{movie_views, LetterboxdMovie, MovieView};
use crate::letterboxd::order::{
    dated_first, has_readable_date, has_unreadable_date, is_more_recent, parse_date,
    rfc2822_instant,
};
use crate::text::{contains, occurs};
use vstd::prelude::*;

verus! {

/// The title shows a rating.
pub open spec fn shows_rating(title: Seq<char>) -> bool {
    occurs("★"@, title)
}

/// The review of `new` is more recent than that of `old`: by the instants of their
/// dates, or by the texts of the dates where one of them names no instant.
pub open spec fn has_later_review(new: MovieView, old: MovieView) -> bool {
    match (old.pub_date, new.pub_date) {
        (Some(old_date), Some(new_date)) => dated_first(
            new_date,
            rfc2822_instant(new_date),
            old_date,
            rfc2822_instant(old_date),
        ),
        _ => false,
    }
}

/// What is known of a film after another of its entries, whose review is the later
/// one or not: a rating it did not have, a title that shows the rating where the
/// earlier one did not, and the later review with its date. The rest stays as the
/// first entry had it.
pub open spec fn merged_with(old: MovieView, new: MovieView, later: bool) -> MovieView {
    MovieView {
        rating: if old.rating is None {
            new.rating
        } else {
            old.rating
        },
        title: if !shows_rating(old.title) && shows_rating(new.title) {
            new.title
        } else {
            old.title
        },
        description: if later {
            new.description
        } else {
            old.description
        },
        pub_date: if later {
            new.pub_date
        } else {
            old.pub_date
        },
        ..old
    }
}

/// What is known of a film after another of its entries.
pub open spec fn merged(old: MovieView, new: MovieView) -> MovieView {
    merged_with(old, new, has_later_review(new, old))
}

/// Adds to a movie what another entry of the film says.
pub fn merge_into(old_movie: LetterboxdMovie, movie: LetterboxdMovie) -> (r: LetterboxdMovie)
    ensures
        r@ == merged(old_movie@, movie@),
{
    let later = match (&old_movie.pub_date, &movie.pub_date) {
        (Some(old_date), Some(new_date)) => is_more_recent(
            new_date.as_str(),
            parse_date(new_date.as_str()),
            old_date.as_str(),
            parse_date(old_date.as_str()),
        ),
        _ => false,
    };
    merge_reviewed(old_movie, movie, later)
}

/// Adds to a movie what another entry of the film says, given whether the review of
/// that entry is the later one.
pub fn merge_reviewed(old_movie: LetterboxdMovie, movie: LetterboxdMovie, later: bool) -> (r:
    LetterboxdMovie)
    ensures
        r@ == merged_with(old_movie@, movie@, later),
{
    let better_title = !contains(old_movie.title.as_str(), "★") && contains(
        movie.title.as_str(),
        "★",
    );
    let rating = if old_movie.rating.is_none() {
        movie.rating
    } else {
        old_movie.rating
    };
    let title = if better_title {
        movie.title
    } else {
        old_movie.title
    };
    let (description, pub_date) = if later {
        (movie.description, movie.pub_date)
    } else {
        (old_movie.description, old_movie.pub_date)
    };
    LetterboxdMovie {
        title,
        link: old_movie.link,
        description,
        pub_date,
        film_title: old_movie.film_title,
        rating,
        rewatch: old_movie.rewatch,
    }
}

/// The first of the movies that is of the film; their number if none is.
pub open spec fn position_of(movies: Seq<MovieView>, film: Option<Seq<char>>) -> int
    decreases movies.len(),
{
    if movies.len() == 0 {
        0
    } else if movies[0].film_title == film {
        0
    } else {
        1 + position_of(movies.drop_first(), film)
    }
}

/// The movies after one more entry's: merged into that of its film, or behind the
/// others if its film is new.
pub open spec fn absorbed(movies: Seq<MovieView>, movie: MovieView) -> Seq<MovieView> {
    let p = position_of(movies, movie.film_title);
    if p < movies.len() {
        movies.update(p, merged(movies[p], movie))
    } else {
        movies.push(movie)
    }
}

/// The movies that the entries tell of, one per film, in the order in which the
/// films first occur.
pub open spec fn collected(items: Seq<ItemView>) -> Seq<MovieView>
    decreases items.len(),
{
    if items.len() == 0 {
        Seq::empty()
    } else {
        let before = collected(items.drop_last());
        match movie_of(items.last()) {
            Some(movie) => absorbed(before, movie),
            None => before,
        }
    }
}

proof fn lemma_position_bounds(movies: Seq<MovieView>, film: Option<Seq<char>>)
    ensures
        0 <= position_of(movies, film) <= movies.len(),
        position_of(movies, film) < movies.len() ==> movies[position_of(movies, film)].film_title
            == film,
        forall|i: int|
            0 <= i < position_of(movies, film) ==> #[trigger] movies[i].film_title != film,
    decreases movies.len(),
{
    if movies.len() > 0 && movies[0].film_title != film {
        let rest = movies.drop_first();
        lemma_position_bounds(rest, film);
        assert forall|i: int| 0 <= i < position_of(movies, film) implies #[trigger] movies[i].film_title
            != film by {
            if i > 0 {
                assert(movies[i] == rest[i - 1]);
            }
        }
    }
}

fn find_film(movies: &Vec<LetterboxdMovie>, film_title: &Option<String>) -> (r: usize)
    ensures
        r == position_of(movie_views(movies@), crate::text::opt_text(*film_title)),
        r <= movies.len(),
{
    let ghost all = movie_views(movies@);
    let ghost film = crate::text::opt_text(*film_title);
    let mut i: usize = 0;
    assert(all.skip(0) =~= all);
    while i < movies.len()
        invariant
            i <= movies.len(),
            all == movie_views(movies@),
            film == crate::text::opt_text(*film_title),
            position_of(all, film) == i + position_of(all.skip(i as int), film),
        decreases movies.len() - i,
    {
        assert(all.skip(i as int).drop_first() =~= all.skip(i + 1));
        let found = match (&movies[i].film_title, film_title) {
            (Some(a), Some(b)) => crate::text::same(a.as_str(), b.as_str()),
            (None, None) => true,
            _ => false,
        };
        if found {
            return i;
        }
        i = i + 1;
    }
    i
}

/// Takes the movie of one more entry in.
fn absorb(movies: &mut Vec<LetterboxdMovie>, movie: LetterboxdMovie)
    ensures
        movie_views(final(movies)@) == absorbed(movie_views(old(movies)@), movie@),
{
    let ghost before = movie_views(movies@);
    let p = find_film(movies, &movie.film_title);
    proof {
        lemma_position_bounds(before, movie@.film_title);
    }
    if p < movies.len() {
        let known = movies[p].clone();
        let together = merge_into(known, movie);
        movies.set(p, together);
        assert(movie_views(movies@) =~= before.update(p as int, together@));
    } else {
        movies.push(movie);
        assert(movie_views(movies@) =~= before.push(movie@));
    }
}

/// Collects the movies of a feed, one per film.
pub fn collect_movies(items: &Vec<FeedItem>) -> (r: Vec<LetterboxdMovie>)
    ensures
        movie_views(r@) == collected(item_views(items@)),
{
    let ghost all = item_views(items@);
    let mut movies: Vec<LetterboxdMovie> = Vec::new();
    let mut i: usize = 0;
    assert(movie_views(movies@) =~= collected(all.take(0)));
    while i < items.len()
        invariant
            i <= items.len(),
            all == item_views(items@),
            movie_views(movies@) == collected(all.take(i as int)),
        decreases items.len() - i,
    {
        assert(all.take(i + 1).drop_last() =~= all.take(i as int));
        match read_movie(&items[i]) {
            Some(movie) => absorb(&mut movies, movie),
            None => {},
        }
        i = i + 1;
    }
    assert(all.take(all.len() as int) =~= all);
    movies
}

/// No film occurs twice.
pub open spec fn films_are_distinct(movies: Seq<MovieView>) -> bool {
    forall|i: int, j: int|
        0 <= i < j < movies.len() ==> #[trigger] movies[i].film_title
            != #[trigger] movies[j].film_title
}

/// However often a film occurs in a feed, one movie is made of it.
pub proof fn each_film_once(items: Seq<ItemView>)
    ensures
        films_are_distinct(collected(items)),
    decreases items.len(),
{
    if items.len() > 0 {
        each_film_once(items.drop_last());
        let before = collected(items.drop_last());
        if let Some(movie) = movie_of(items.last()) {
            lemma_position_bounds(before, movie.film_title);
        }
    }
}

/// Some entry tells of the film.
pub open spec fn is_told_of(items: Seq<ItemView>, film: Seq<char>) -> bool {
    exists|i: int|
        #![trigger items[i]]
        0 <= i < items.len() && movie_of(items[i]) is Some && movie_of(items[i])->0.film_title
            == Some(film)
}

/// Some movie is of the film.
pub open spec fn is_among(movies: Seq<MovieView>, film: Seq<char>) -> bool {
    exists|k: int| 0 <= k < movies.len() && (#[trigger] movies[k]).film_title == Some(film)
}

/// Every film that an entry tells of is among the movies, and the movies are of
/// no other films.
pub proof fn no_film_lost(items: Seq<ItemView>, film: Seq<char>)
    ensures
        is_told_of(items, film) <==> is_among(collected(items), film),
    decreases items.len(),
{
    if items.len() > 0 {
        let init = items.drop_last();
        let before = collected(init);
        let after = collected(items);
        let last = movie_of(items.last());
        no_film_lost(init, film);
        if let Some(movie) = last {
            lemma_position_bounds(before, movie.film_title);
        }
        if is_told_of(items, film) {
            let i = choose|i: int|
                #![trigger items[i]]
                0 <= i < items.len() && movie_of(items[i]) is Some && movie_of(
                    items[i],
                )->0.film_title == Some(film);
            if i < items.len() - 1 {
                assert(init[i] == items[i]);
                let k = choose|k: int|
                    0 <= k < before.len() && (#[trigger] before[k]).film_title == Some(film);
                assert(after[k].film_title == Some(film));
            } else {
                let p = position_of(before, last->0.film_title);
                assert(after[p].film_title == Some(film));
            }
        }
        if is_among(after, film) {
            let k = choose|k: int|
                0 <= k < after.len() && (#[trigger] after[k]).film_title == Some(film);
            if k < before.len() {
                assert(before[k].film_title == Some(film));
                let i = choose|i: int|
                    #![trigger init[i]]
                    0 <= i < init.len() && movie_of(init[i]) is Some && movie_of(
                        init[i],
                    )->0.film_title == Some(film);
                assert(items[i] == init[i]);
            } else {
                assert(items[items.len() - 1] == items.last());
            }
        }
    }
}

/// The rating of the first entry of the film that has one.
pub open spec fn first_rating(items: Seq<ItemView>, film: Seq<char>) -> Option<Seq<char>>
    decreases items.len(),
{
    if items.len() == 0 {
        None
    } else {
        let before = first_rating(items.drop_last(), film);
        match (before, movie_of(items.last())) {
            (None, Some(movie)) => if movie.film_title == Some(film) {
                movie.rating
            } else {
                None
            },
            _ => before,
        }
    }
}

/// A movie has the first rating that the entries of its film hold: no rating is
/// lost, and none is replaced.
pub proof fn rating_is_kept(items: Seq<ItemView>, film: Seq<char>)
    ensures
        forall|k: int|
            0 <= k < collected(items).len() && (#[trigger] collected(items)[k]).film_title == Some(
                film,
            ) ==> collected(items)[k].rating == first_rating(items, film),
        !is_among(collected(items), film) ==> first_rating(items, film) is None,
    decreases items.len(),
{
    if items.len() > 0 {
        let init = items.drop_last();
        let before = collected(init);
        let after = collected(items);
        rating_is_kept(init, film);
        each_film_once(init);
        if let Some(movie) = movie_of(items.last()) {
            let p = position_of(before, movie.film_title);
            lemma_position_bounds(before, movie.film_title);
            assert forall|k: int|
                0 <= k < after.len() && (#[trigger] after[k]).film_title == Some(
                    film,
                ) implies after[k].rating == first_rating(items, film) by {
                if k < before.len() {
                    assert(before[k].film_title == Some(film));
                } else {
                    if is_among(before, film) {
                        let j = choose|j: int|
                            0 <= j < before.len() && (#[trigger] before[j]).film_title == Some(
                                film,
                            );
                        assert(j < p);
                    }
                }
            }
            if !is_among(after, film) {
                assert forall|k: int| 0 <= k < before.len() implies (
                #[trigger] before[k]).film_title != Some(film) by {
                    assert(after[k].film_title == before[k].film_title);
                }
                assert(after[p].film_title == movie.film_title);
            }
        }
    }
}

/// The entry tells of the film.
pub open spec fn tells_of(item: ItemView, film: Seq<char>) -> bool {
    movie_of(item) matches Some(movie) && movie.film_title == Some(film)
}

/// Some entry of the film has a title that shows a rating.
pub open spec fn is_titled_with_rating(items: Seq<ItemView>, film: Seq<char>) -> bool {
    exists|i: int|
        0 <= i < items.len() && tells_of(#[trigger] items[i], film) && shows_rating(
            movie_of(items[i])->0.title,
        )
}

proof fn lemma_other_film(movies: Seq<MovieView>, film: Option<Seq<char>>, k: int)
    requires
        films_are_distinct(movies),
        0 <= k < movies.len(),
        k != position_of(movies, film),
    ensures
        movies[k].film_title != film,
{
    lemma_position_bounds(movies, film);
    let p = position_of(movies, film);
    if p < k {
        assert(movies[p].film_title != movies[k].film_title);
    }
}

/// The title of a movie shows a rating exactly if a title of its entries does.
pub proof fn title_shows_the_rating(items: Seq<ItemView>, film: Seq<char>, k: int)
    requires
        0 <= k < collected(items).len(),
        collected(items)[k].film_title == Some(film),
    ensures
        shows_rating(collected(items)[k].title) <==> is_titled_with_rating(items, film),
    decreases items.len(),
{
    let init = items.drop_last();
    let before = collected(init);
    if is_titled_with_rating(init, film) {
        let i = choose|i: int|
            0 <= i < init.len() && tells_of(#[trigger] init[i], film) && shows_rating(
                movie_of(init[i])->0.title,
            );
        assert(tells_of(items[i], film));
    }
    if is_titled_with_rating(items, film) {
        let i = choose|i: int|
            0 <= i < items.len() && tells_of(#[trigger] items[i], film) && shows_rating(
                movie_of(items[i])->0.title,
            );
        if i < init.len() {
            assert(tells_of(init[i], film));
        }
    }
    if tells_of(items.last(), film) && shows_rating(movie_of(items.last())->0.title) {
        assert(tells_of(items[items.len() - 1], film));
    }
    match movie_of(items.last()) {
        None => title_shows_the_rating(init, film, k),
        Some(movie) => {
            each_film_once(init);
            lemma_position_bounds(before, movie.film_title);
            if k < before.len() {
                title_shows_the_rating(init, film, k);
                if k != position_of(before, movie.film_title) {
                    lemma_other_film(before, movie.film_title, k);
                }
            } else {
                lemma_new_film(items, film);
            }
        },
    }
}

proof fn lemma_new_film(items: Seq<ItemView>, film: Seq<char>)
    requires
        items.len() > 0,
        tells_of(items.last(), film),
        position_of(collected(items.drop_last()), Some(film)) == collected(items.drop_last()).len(),
    ensures
        forall|i: int| 0 <= i < items.len() - 1 ==> !tells_of(#[trigger] items[i], film),
{
    let init = items.drop_last();
    let before = collected(init);
    no_film_lost(init, film);
    lemma_position_bounds(before, Some(film));
    if is_among(before, film) {
        let j = choose|j: int|
            0 <= j < before.len() && (#[trigger] before[j]).film_title == Some(film);
        assert(j < position_of(before, Some(film)));
    }
    assert forall|i: int| 0 <= i < items.len() - 1 implies !tells_of(#[trigger] items[i], film) by {
        assert(init[i] == items[i]);
    }
}

/// The movie's review and date are those of the entry.
pub open spec fn has_review_of(movie: MovieView, item: ItemView) -> bool {
    movie_of(item) matches Some(own) && own.description == movie.description && own.pub_date
        == movie.pub_date
}

/// The review dates of the entries of the film order them without a contradiction: a
/// review that is later than another is later than those before it.
pub open spec fn reviews_agree(items: Seq<ItemView>, film: Seq<char>) -> bool {
    forall|i: int, j: int, k: int|
        0 <= i < items.len() && 0 <= j < items.len() && 0 <= k < items.len() && tells_of(
            #[trigger] items[i],
            film,
        ) && tells_of(#[trigger] items[j], film) && tells_of(#[trigger] items[k], film)
            && has_later_review(movie_of(items[j])->0, movie_of(items[i])->0) && has_later_review(
            movie_of(items[k])->0,
            movie_of(items[j])->0,
        ) ==> has_later_review(movie_of(items[k])->0, movie_of(items[i])->0)
}

/// Review dates that all name an instant agree, and so do dates of which none does.
pub proof fn reviews_of_one_kind_agree(items: Seq<ItemView>, film: Seq<char>)
    requires
        (forall|i: int|
            0 <= i < items.len() && tells_of(#[trigger] items[i], film) ==> has_readable_date(
                movie_of(items[i])->0,
            )) || (forall|i: int|
            0 <= i < items.len() && tells_of(#[trigger] items[i], film) ==> has_unreadable_date(
                movie_of(items[i])->0,
            )),
    ensures
        reviews_agree(items, film),
{
    assert forall|i: int, j: int, k: int|
        0 <= i < items.len() && 0 <= j < items.len() && 0 <= k < items.len() && tells_of(
            #[trigger] items[i],
            film,
        ) && tells_of(#[trigger] items[j], film) && tells_of(#[trigger] items[k], film)
            && has_later_review(movie_of(items[j])->0, movie_of(items[i])->0) && has_later_review(
            movie_of(items[k])->0,
            movie_of(items[j])->0,
        ) implies has_later_review(movie_of(items[k])->0, movie_of(items[i])->0) by {
        let a = movie_of(items[i])->0.pub_date->0;
        let b = movie_of(items[j])->0.pub_date->0;
        let c = movie_of(items[k])->0.pub_date->0;
        if rfc2822_instant(a) is None {
            crate::text::precedes_is_transitive(a, b, c);
        }
    }
}

proof fn lemma_not_later_than_itself(movie: MovieView)
    ensures
        !has_later_review(movie, movie),
{
    if let Some(date) = movie.pub_date {
        crate::text::precedes_is_irreflexive(date);
    }
}

/// The review of a movie and its date are those of one entry of the film. Where the
/// review dates of the film agree, no entry of the film has a later one.
pub proof fn review_is_the_latest(items: Seq<ItemView>, film: Seq<char>, k: int)
    requires
        0 <= k < collected(items).len(),
        collected(items)[k].film_title == Some(film),
    ensures
        exists|i: int|
            0 <= i < items.len() && tells_of(#[trigger] items[i], film) && has_review_of(
                collected(items)[k],
                items[i],
            ),
        reviews_agree(items, film) ==> forall|i: int|
            0 <= i < items.len() && tells_of(#[trigger] items[i], film) ==> !has_later_review(
                movie_of(items[i])->0,
                collected(items)[k],
            ),
    decreases items.len(),
{
    let init = items.drop_last();
    let before = collected(init);
    let after = collected(items);
    if k < before.len() {
        let known = before[k];
        assert(known.film_title == Some(film)) by {
            if let Some(movie) = movie_of(items.last()) {
                lemma_position_bounds(before, movie.film_title);
            }
        }
        review_is_the_latest(init, film, k);
        let source = choose|i: int|
            0 <= i < init.len() && tells_of(#[trigger] init[i], film) && has_review_of(
                known,
                init[i],
            );
        assert(items[source] == init[source]);
        if reviews_agree(items, film) {
            assert(reviews_agree(init, film)) by {
                assert forall|i: int, j: int, m: int|
                    0 <= i < init.len() && 0 <= j < init.len() && 0 <= m < init.len() && tells_of(
                        #[trigger] init[i],
                        film,
                    ) && tells_of(#[trigger] init[j], film) && tells_of(#[trigger] init[m], film)
                        && has_later_review(movie_of(init[j])->0, movie_of(init[i])->0)
                        && has_later_review(
                        movie_of(init[m])->0,
                        movie_of(init[j])->0,
                    ) implies has_later_review(movie_of(init[m])->0, movie_of(init[i])->0) by {
                    assert(init[i] == items[i] && init[j] == items[j] && init[m] == items[m]);
                }
            }
            assert forall|i: int| 0 <= i < init.len() && tells_of(#[trigger] items[i], film) implies
                !has_later_review(movie_of(items[i])->0, known) by {
                assert(tells_of(init[i], film));
            }
        }
        let last = movie_of(items.last());
        if tells_of(items.last(), film) {
            let movie = last->0;
            each_film_once(init);
            lemma_position_bounds(before, movie.film_title);
            if k != position_of(before, movie.film_title) {
                lemma_other_film(before, movie.film_title, k);
            }
            assert(after[k] == merged(known, movie));
            assert(items[items.len() - 1] == items.last());
            if has_later_review(movie, known) {
                assert(has_review_of(after[k], items[items.len() - 1]));
                if reviews_agree(items, film) {
                    assert forall|i: int|
                        0 <= i < items.len() && tells_of(#[trigger] items[i], film) implies
                        !has_later_review(movie_of(items[i])->0, after[k]) by {
                        let other = movie_of(items[i])->0;
                        let first = movie_of(items[source])->0;
                        if has_later_review(other, after[k]) {
                            assert(has_later_review(other, movie));
                            assert(has_later_review(movie, first));
                            assert(has_later_review(other, first));
                            if i < init.len() {
                                assert(!has_later_review(other, known));
                            } else {
                                lemma_not_later_than_itself(movie);
                            }
                        }
                    }
                }
            } else {
                assert(has_review_of(after[k], items[source]));
            }
        } else {
            if let Some(movie) = last {
                lemma_position_bounds(before, movie.film_title);
            }
            assert(after[k] == known);
            assert(has_review_of(after[k], items[source]));
        }
    } else {
        if let Some(movie) = movie_of(items.last()) {
            lemma_position_bounds(before, movie.film_title);
        }
        lemma_new_film(items, film);
        assert(items[items.len() - 1] == items.last());
        assert(has_review_of(after[k], items[items.len() - 1]));
        lemma_not_later_than_itself(after[k]);
    }
}

/// The first entry of the film.
pub open spec fn first_told(items: Seq<ItemView>, film: Seq<char>) -> Option<MovieView>
    decreases items.len(),
{
    if items.len() == 0 {
        None
    } else {
        let before = first_told(items.drop_last(), film);
        if before is None && tells_of(items.last(), film) {
            movie_of(items.last())
        } else {
            before
        }
    }
}

/// The first entry of the film whose title shows a rating.
pub open spec fn first_starred(items: Seq<ItemView>, film: Seq<char>) -> Option<MovieView>
    decreases items.len(),
{
    if items.len() == 0 {
        None
    } else {
        let before = first_starred(items.drop_last(), film);
        if before is None && tells_of(items.last(), film) && shows_rating(
            movie_of(items.last())->0.title,
        ) {
            movie_of(items.last())
        } else {
            before
        }
    }
}

proof fn lemma_first_starred(items: Seq<ItemView>, film: Seq<char>)
    ensures
        first_starred(items, film) matches Some(movie) ==> shows_rating(movie.title),
        first_starred(items, film) is None ==> (first_told(items, film) matches Some(movie)
            ==> !shows_rating(movie.title)),
    decreases items.len(),
{
    if items.len() > 0 {
        lemma_first_starred(items.drop_last(), film);
    }
}

proof fn lemma_untold(items: Seq<ItemView>, film: Seq<char>)
    requires
        forall|i: int| 0 <= i < items.len() ==> !tells_of(#[trigger] items[i], film),
    ensures
        first_told(items, film) is None,
        first_starred(items, film) is None,
    decreases items.len(),
{
    if items.len() > 0 {
        let init = items.drop_last();
        assert forall|i: int| 0 <= i < init.len() implies !tells_of(#[trigger] init[i], film) by {
            assert(items[i] == init[i]);
        }
        lemma_untold(init, film);
        assert(!tells_of(items[items.len() - 1], film));
    }
}

/// The title of a movie is that of the first entry of its film whose title shows a
/// rating, or else that of its first entry; the link and whether it is a rewatch are
/// the first entry's.
pub proof fn the_first_entries_name_the_movie(items: Seq<ItemView>, film: Seq<char>, k: int)
    requires
        0 <= k < collected(items).len(),
        collected(items)[k].film_title == Some(film),
    ensures
        first_told(items, film) is Some,
        collected(items)[k].link == first_told(items, film)->0.link,
        collected(items)[k].rewatch == first_told(items, film)->0.rewatch,
        collected(items)[k].title == (match first_starred(items, film) {
            Some(starred) => starred.title,
            None => first_told(items, film)->0.title,
        }),
    decreases items.len(),
{
    let init = items.drop_last();
    let before = collected(init);
    match movie_of(items.last()) {
        None => the_first_entries_name_the_movie(init, film, k),
        Some(movie) => {
            each_film_once(init);
            lemma_position_bounds(before, movie.film_title);
            if k < before.len() {
                the_first_entries_name_the_movie(init, film, k);
                lemma_first_starred(init, film);
                if k != position_of(before, movie.film_title) {
                    lemma_other_film(before, movie.film_title, k);
                }
            } else {
                lemma_new_film(items, film);
                assert forall|i: int| 0 <= i < init.len() implies !tells_of(
                    #[trigger] init[i],
                    film,
                ) by {
                    assert(items[i] == init[i]);
                }
                lemma_untold(init, film);
            }
        },
    }
}

/// A title with a star in it shows a rating, and one without does not.
pub proof fn stars_show_a_rating(front: Seq<char>, back: Seq<char>, title: Seq<char>)
    ensures
        shows_rating(front + "★"@ + back),
        !title.contains('★') ==> !shows_rating(title),
{
    crate::text::parts_occur(front, "★"@, back);
    if shows_rating(title) {
        reveal_strlit("★");
        let at = choose|at: int| crate::text::stands_at(title, "★"@, at);
        assert(title.subrange(at, at + 1)[0] == title[at]);
    }
}

/// Merging takes of the later entry what the movie lacks, and its review where that
/// is the later one: film, link and rewatch stay, a rating is not replaced, a title
/// gives way only to one that shows a rating, and review and date go together.
pub proof fn merging_keeps_and_adds(old: MovieView, new: MovieView, later: bool)
    ensures
        merged_with(old, new, later).film_title == old.film_title,
        merged_with(old, new, later).link == old.link,
        merged_with(old, new, later).rewatch == old.rewatch,
        old.rating is Some ==> merged_with(old, new, later).rating == old.rating,
        old.rating is None ==> merged_with(old, new, later).rating == new.rating,
        old.title.contains('★') && shows_rating(old.title) ==> merged_with(old, new, later).title
            == old.title,
        !new.title.contains('★') ==> merged_with(old, new, later).title == old.title,
        !old.title.contains('★') && shows_rating(new.title) ==> merged_with(old, new, later).title
            == new.title,
        later ==> merged_with(old, new, later).description == new.description && merged_with(
            old,
            new,
            later,
        ).pub_date == new.pub_date,
        !later ==> merged_with(old, new, later).description == old.description && merged_with(
            old,
            new,
            later,
        ).pub_date == old.pub_date,
{
    stars_show_a_rating(Seq::empty(), Seq::empty(), old.title);
    stars_show_a_rating(Seq::empty(), Seq::empty(), new.title);
}

/// The more recent of two reviews is the one whose date names the later instant, by
/// seconds and then by nanoseconds; where a date names none, the one whose date is the
/// greater text; a review without a date is neither. The movie takes the review of a
/// further entry, with its date, exactly if that is the more recent one.
pub proof fn the_later_instant_is_the_later_review(old: MovieView, new: MovieView)
    ensures
        old.pub_date is None || new.pub_date is None ==> !has_later_review(new, old),
        old.pub_date matches Some(old_date) ==> (new.pub_date matches Some(new_date) ==> (
        rfc2822_instant(old_date) matches Some(was) ==> (rfc2822_instant(new_date) matches Some(is)
            ==> (has_later_review(new, old) <==> was.0 < is.0 || (was.0 == is.0 && was.1
            < is.1))))),
        old.pub_date matches Some(old_date) ==> (new.pub_date matches Some(new_date) ==> (
        rfc2822_instant(old_date) is None || rfc2822_instant(new_date) is None ==> (
        has_later_review(new, old) <==> crate::text::precedes(old_date, new_date)))),
        has_later_review(new, old) ==> merged(old, new).description == new.description && merged(
            old,
            new,
        ).pub_date == new.pub_date,
        !has_later_review(new, old) ==> merged(old, new).description == old.description && merged(
            old,
            new,
        ).pub_date == old.pub_date,
{
}

/// Where the dates of a film all name instants, its movie has the review of an entry
/// behind which no entry of the film lies.
pub proof fn no_later_review_is_passed_over(items: Seq<ItemView>, film: Seq<char>, k: int, i: int)
    requires
        0 <= k < collected(items).len(),
        collected(items)[k].film_title == Some(film),
        forall|j: int|
            0 <= j < items.len() && tells_of(#[trigger] items[j], film) ==> (items[j].pub_date
                matches Some(date) && rfc2822_instant(date) is Some),
        0 <= i < items.len(),
        tells_of(items[i], film),
    ensures
        collected(items)[k].pub_date is Some,
        rfc2822_instant(collected(items)[k].pub_date->0) is Some,
        ({
            let shown = rfc2822_instant(collected(items)[k].pub_date->0)->0;
            let other = rfc2822_instant(items[i].pub_date->0)->0;
            other.0 < shown.0 || (other.0 == shown.0 && other.1 <= shown.1)
        }),
{
    assert forall|j: int| 0 <= j < items.len() && tells_of(#[trigger] items[j], film) implies
        has_readable_date(movie_of(items[j])->0) by {
        assert(movie_of(items[j])->0.pub_date == items[j].pub_date);
    }
    reviews_of_one_kind_agree(items, film);
    review_is_the_latest(items, film, k);
    let source = choose|j: int|
        0 <= j < items.len() && tells_of(#[trigger] items[j], film) && has_review_of(
            collected(items)[k],
            items[j],
        );
    assert(items[source].pub_date is Some);
    assert(!has_later_review(movie_of(items[i])->0, collected(items)[k]));
}

/// Films stand in the order in which the feed first tells of them: further entries add
/// films behind the others, and move none.
pub proof fn films_keep_their_places(items: Seq<ItemView>, more: Seq<ItemView>)
    ensures
        collected(items).len() <= collected(items + more).len(),
        forall|k: int|
            0 <= k < collected(items).len() ==> (#[trigger] collected(items + more)[k]).film_title
                == collected(items)[k].film_title,
    decreases more.len(),
{
    if more.len() > 0 {
        let fewer = more.drop_last();
        films_keep_their_places(items, fewer);
        let before = collected(items + fewer);
        let after = collected(items + more);
        assert((items + more).drop_last() =~= items + fewer);
        assert((items + more).last() == more.last());
        if let Some(movie) = movie_of(more.last()) {
            lemma_position_bounds(before, movie.film_title);
        }
        assert forall|k: int| 0 <= k < collected(items).len() implies (
        #[trigger] after[k]).film_title == collected(items)[k].film_title by {
            assert(before[k].film_title == collected(items)[k].film_title);
        }
    } else {
        assert(items + more =~= items);
    }
}

} // verus!

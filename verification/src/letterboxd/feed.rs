//! From the bytes of a feed to the movies to show.

use crate::letterboxd::item::{item_views, FeedExtension, FeedItem, ItemView};
use crate::letterboxd::merge::{
    collect_movies, collected, each_film_once, films_are_distinct,
};
use crate::letterboxd::movie::{movie_views, LetterboxdMovie, MovieView};
use crate::letterboxd::order::{
    agreeing_dates_are_sorted, all_in_order, dates_agree, goes_first, newest_first, placed,
    sort_by_recency, sorting_keeps_the_movies,
};
use crate::text::{first_of, joined};
use vstd::prelude::*;

verus! {

/// The movies to show of a feed: one per film, the most recent first, as many as
/// the limit allows.
pub open spec fn shown_movies(items: Seq<ItemView>, limit: nat) -> Seq<MovieView> {
    first_of(newest_first(collected(items)), limit)
}

/// Makes the list of movies out of the entries of a feed.
pub fn process_letterboxd_items(items: &Vec<FeedItem>, movies_limit: usize) -> (r: Vec<
    LetterboxdMovie,
>)
    ensures
        movie_views(r@) == shown_movies(item_views(items@), movies_limit as nat),
{
    let mut movies = sort_by_recency(collect_movies(items));
    let ghost sorted = movies@;
    movies.truncate(movies_limit);
    assert(movie_views(movies@) =~= first_of(movie_views(sorted), movies_limit as nat));
    movies
}

proof fn lemma_placed_distinct(movies: Seq<MovieView>, movie: MovieView)
    requires
        films_are_distinct(movies),
        forall|k: int| 0 <= k < movies.len() ==> (#[trigger] movies[k]).film_title != movie.film_title,
    ensures
        films_are_distinct(placed(movies, movie)),
        forall|k: int|
            0 <= k < placed(movies, movie).len() ==> (#[trigger] placed(movies, movie)[k]) == movie
                || movies.contains(placed(movies, movie)[k]),
    decreases movies.len(),
{
    let q = placed(movies, movie);
    if movies.len() > 0 && goes_first(movie, movies.last()) {
        let init = movies.drop_last();
        lemma_placed_distinct(init, movie);
        let p = placed(init, movie);
        assert forall|k: int| 0 <= k < q.len() implies (#[trigger] q[k]) == movie
            || movies.contains(q[k]) by {
            if k < p.len() {
                assert(q[k] == p[k]);
                if p[k] != movie {
                    let m = choose|m: int| 0 <= m < init.len() && init[m] == p[k];
                    assert(movies[m] == q[k]);
                }
            } else {
                assert(movies[movies.len() - 1] == q[k]);
            }
        }
        assert forall|i: int, j: int| 0 <= i < j < q.len() implies (#[trigger] q[i]).film_title
            != (#[trigger] q[j]).film_title by {
            assert(q[i] == p[i]);
            if j < p.len() {
                assert(q[j] == p[j]);
            } else if p[i] != movie {
                let m = choose|m: int| 0 <= m < init.len() && init[m] == p[i];
                assert(movies[m] == q[i]);
            }
        }
    } else {
        assert forall|k: int| 0 <= k < q.len() implies (#[trigger] q[k]) == movie
            || movies.contains(q[k]) by {
            if k < movies.len() {
                assert(movies[k] == q[k]);
            }
        }
    }
}

proof fn lemma_sorted_distinct(movies: Seq<MovieView>)
    requires
        films_are_distinct(movies),
    ensures
        films_are_distinct(newest_first(movies)),
        forall|k: int|
            0 <= k < newest_first(movies).len() ==> movies.contains(
                #[trigger] newest_first(movies)[k],
            ),
    decreases movies.len(),
{
    if movies.len() > 0 {
        let init = movies.drop_last();
        lemma_sorted_distinct(init);
        let before = newest_first(init);
        assert forall|k: int| 0 <= k < before.len() implies (
        #[trigger] before[k]).film_title != movies.last().film_title by {
            let m = choose|m: int| 0 <= m < init.len() && init[m] == before[k];
            assert(movies[m] == before[k]);
        }
        lemma_placed_distinct(before, movies.last());
        let after = newest_first(movies);
        assert forall|k: int| 0 <= k < after.len() implies movies.contains(#[trigger] after[k]) by {
            if after[k] == movies.last() {
                assert(movies[movies.len() - 1] == after[k]);
            } else {
                let b = choose|b: int| 0 <= b < before.len() && before[b] == after[k];
                let m = choose|m: int| 0 <= m < init.len() && init[m] == before[b];
                assert(movies[m] == after[k]);
            }
        }
    }
}

/// No film is shown twice, and no more movies than the limit; as many as the
/// limit wherever the feed tells of so many films.
pub proof fn shown_films_are_distinct(items: Seq<ItemView>, limit: nat)
    ensures
        films_are_distinct(shown_movies(items, limit)),
        shown_movies(items, limit).len() == (if limit <= collected(items).len() {
            limit
        } else {
            collected(items).len()
        }),
{
    each_film_once(items);
    lemma_sorted_distinct(collected(items));
    sorting_keeps_the_movies(collected(items));
}

/// Where the dates agree, the shown movies stand most recent first, and none that
/// was left out goes in front of one that is shown.
pub proof fn shown_movies_are_the_most_recent(items: Seq<ItemView>, limit: nat)
    requires
        dates_agree(collected(items)),
    ensures
        all_in_order(shown_movies(items, limit)),
        forall|i: int, j: int|
            0 <= i < limit <= j < newest_first(collected(items)).len() ==> !goes_first(
                #[trigger] newest_first(collected(items))[j],
                #[trigger] shown_movies(items, limit)[i],
            ),
{
    let sorted = newest_first(collected(items));
    let shown = shown_movies(items, limit);
    agreeing_dates_are_sorted(collected(items));
    assert forall|i: int, j: int| 0 <= i < j < shown.len() implies !goes_first(
        #[trigger] shown[j],
        #[trigger] shown[i],
    ) by {
        assert(shown[i] == sorted[i] && shown[j] == sorted[j]);
    }
    assert forall|i: int, j: int| 0 <= i < limit <= j < sorted.len() implies !goes_first(
        #[trigger] sorted[j],
        #[trigger] shown[i],
    ) by {
        assert(shown[i] == sorted[i]);
    }
}

/// The outcome of reading a feed, in its models.
pub open spec fn feed_view(r: Result<Vec<FeedItem>, String>) -> Result<Seq<ItemView>, Seq<char>> {
    match r {
        Ok(items) => Ok(item_views(items@)),
        Err(e) => Err(e@),
    }
}

/// The entries of the RSS channel that the bytes hold, or what is wrong with it.
pub uninterp spec fn channel_items(content: Seq<u8>) -> Result<Seq<ItemView>, Seq<char>>;

/// `rss::Channel::read_from`: the items of the channel that the bytes hold, each
/// with its title, link, description, publication date and extension elements, or
/// the message of the error; a function of the bytes alone. Elements that are
/// nested are read by recursion, and how deep they may be nested before the stack
/// is used up is left unsaid.
#[verifier::external_body]
fn read_channel(content: &[u8]) -> (r: Result<Vec<FeedItem>, String>)
    ensures
        feed_view(r) == channel_items(content@),
{
    match rss::Channel::read_from(content) {
        Ok(c) => Ok(c.items.into_iter().map(|i| FeedItem {
            title: i.title,
            link: i.link,
            description: i.description,
            pub_date: i.pub_date,
            extensions: i.extensions.into_iter().flat_map(|(ns, names)| names.into_iter().map(
                move |(name, v)| FeedExtension { namespace: ns.clone(), name, values: v.into_iter().map(|e| e.value).collect() },
            )).collect(),
        }).collect()),
        Err(e) => Err(e.to_string()),
    }
}

/// The outcome of making movies, in its models.
pub open spec fn movies_result(r: Result<Vec<LetterboxdMovie>, String>) -> Result<
    Seq<MovieView>,
    Seq<char>,
> {
    match r {
        Ok(movies) => Ok(movie_views(movies@)),
        Err(e) => Err(e@),
    }
}

/// The movies to show of a feed that was read, or the message that it was not.
pub open spec fn feed_movies(read: Result<Seq<ItemView>, Seq<char>>, limit: nat) -> Result<
    Seq<MovieView>,
    Seq<char>,
> {
    match read {
        Ok(items) => Ok(shown_movies(items, limit)),
        Err(e) => Err("Failed to parse RSS feed: "@ + e),
    }
}

/// Makes the list of movies out of the outcome of reading a feed.
pub fn movies_of_feed(read: Result<Vec<FeedItem>, String>, movies_limit: usize) -> (r: Result<
    Vec<LetterboxdMovie>,
    String,
>)
    ensures
        movies_result(r) == feed_movies(feed_view(read), movies_limit as nat),
{
    match read {
        Ok(items) => Ok(process_letterboxd_items(&items, movies_limit)),
        Err(e) => Err(joined("Failed to parse RSS feed: ", e.as_str())),
    }
}

/// Makes the list of movies out of the bytes of a feed.
pub fn parse_feed(content: &[u8], movies_limit: usize) -> (r: Result<Vec<LetterboxdMovie>, String>)
    ensures
        movies_result(r) == feed_movies(channel_items(content@), movies_limit as nat),
{
    movies_of_feed(read_channel(content), movies_limit)
}

/// The movies shown of a feed are the first of its movies in order of recency, every
/// one of them a movie of the feed.
pub proof fn the_first_in_order_are_shown(items: Seq<ItemView>, limit: nat, k: int)
    requires
        0 <= k < shown_movies(items, limit).len(),
    ensures
        shown_movies(items, limit).len() <= limit,
        shown_movies(items, limit)[k] == newest_first(collected(items))[k],
        collected(items).contains(shown_movies(items, limit)[k]),
{
    each_film_once(items);
    lemma_sorted_distinct(collected(items));
}

/// A feed that was read gives its movies; one that was not gives the reason.
pub proof fn feeds_give_movies_or_the_reason(
    items: Seq<ItemView>,
    error: Seq<char>,
    limit: nat,
)
    ensures
        feed_movies(Ok(items), limit) == Ok::<Seq<MovieView>, Seq<char>>(
            shown_movies(items, limit),
        ),
        feed_movies(Err(error), limit) == Err::<Seq<MovieView>, Seq<char>>(
            "Failed to parse RSS feed: "@ + error,
        ),
{
}

} // verus!

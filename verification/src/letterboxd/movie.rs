//! A watched movie.

use crate::text::opt_text;
use vstd::prelude::*;

verus! {

/// A movie of the feed, with what its entries say of it.
#[derive(Debug)]
pub struct LetterboxdMovie {
    pub title: String,
    pub link: String,
    pub description: String,
    pub pub_date: Option<String>,
    pub film_title: Option<String>,
    pub rating: Option<String>,
    pub rewatch: Option<String>,
}

/// The model of [`LetterboxdMovie`].
#[verifier::ext_equal]
pub struct MovieView {
    pub title: Seq<char>,
    pub link: Seq<char>,
    pub description: Seq<char>,
    pub pub_date: Option<Seq<char>>,
    pub film_title: Option<Seq<char>>,
    pub rating: Option<Seq<char>>,
    pub rewatch: Option<Seq<char>>,
}

impl View for LetterboxdMovie {
    type V = MovieView;

    open spec fn view(&self) -> MovieView {
        MovieView {
            title: self.title@,
            link: self.link@,
            description: self.description@,
            pub_date: opt_text(self.pub_date),
            film_title: opt_text(self.film_title),
            rating: opt_text(self.rating),
            rewatch: opt_text(self.rewatch),
        }
    }
}

impl Clone for LetterboxdMovie {
    fn clone(&self) -> (r: Self)
        ensures
            r == *self,
    {
        LetterboxdMovie {
            title: self.title.clone(),
            link: self.link.clone(),
            description: self.description.clone(),
            pub_date: self.pub_date.clone(),
            film_title: self.film_title.clone(),
            rating: self.rating.clone(),
            rewatch: self.rewatch.clone(),
        }
    }
}

/// The models of a list of movies.
pub open spec fn movie_views(s: Seq<LetterboxdMovie>) -> Seq<MovieView> {
    s.map_values(|m: LetterboxdMovie| m@)
}

/// A copy of a list of movies.
pub(crate) fn copy_movies(v: &Vec<LetterboxdMovie>) -> (r: Vec<LetterboxdMovie>)
    ensures
        r@ == v@,
{
    let mut r: Vec<LetterboxdMovie> = Vec::new();
    let mut i: usize = 0;
    while i < v.len()
        invariant
            i <= v.len(),
            r@ == v@.take(i as int),
        decreases v.len() - i,
    {
        r.push(v[i].clone());
        i = i + 1;
        assert(r@ =~= v@.take(i as int));
    }
    assert(v@.take(v.len() as int) =~= v@);
    r
}

} // verus!

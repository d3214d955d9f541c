//! The entries of a feed, and the movie that an entry tells of.

use crate::letterboxd::movie::{LetterboxdMovie, MovieView};
use crate::text::{opt_text, or_empty, or_nothing, same};
use vstd::prelude::*;

verus! {

/// Extension elements of an entry that share a namespace and a name.
#[derive(Debug)]
pub struct FeedExtension {
    pub namespace: String,
    pub name: String,
    /// The contents of the elements, in their order; an element may be empty.
    pub values: Vec<Option<String>>,
}

/// An entry of a feed.
#[derive(Debug)]
pub struct FeedItem {
    pub title: Option<String>,
    pub link: Option<String>,
    pub description: Option<String>,
    pub pub_date: Option<String>,
    pub extensions: Vec<FeedExtension>,
}

/// The model of [`FeedExtension`].
#[verifier::ext_equal]
pub struct ExtensionView {
    pub namespace: Seq<char>,
    pub name: Seq<char>,
    pub values: Seq<Option<Seq<char>>>,
}

/// The model of [`FeedItem`].
#[verifier::ext_equal]
pub struct ItemView {
    pub title: Option<Seq<char>>,
    pub link: Option<Seq<char>>,
    pub description: Option<Seq<char>>,
    pub pub_date: Option<Seq<char>>,
    pub extensions: Seq<ExtensionView>,
}

impl View for FeedExtension {
    type V = ExtensionView;

    open spec fn view(&self) -> ExtensionView {
        ExtensionView {
            namespace: self.namespace@,
            name: self.name@,
            values: self.values@.map_values(|v: Option<String>| opt_text(v)),
        }
    }
}

impl View for FeedItem {
    type V = ItemView;

    open spec fn view(&self) -> ItemView {
        ItemView {
            title: opt_text(self.title),
            link: opt_text(self.link),
            description: opt_text(self.description),
            pub_date: opt_text(self.pub_date),
            extensions: self.extensions@.map_values(|e: FeedExtension| e@),
        }
    }
}

/// The models of a list of entries.
pub open spec fn item_views(s: Seq<FeedItem>) -> Seq<ItemView> {
    s.map_values(|i: FeedItem| i@)
}

/// The contents of the extension elements with a namespace and a name.
pub open spec fn extension_values(
    extensions: Seq<ExtensionView>,
    namespace: Seq<char>,
    name: Seq<char>,
) -> Seq<Option<Seq<char>>>
    decreases extensions.len(),
{
    if extensions.len() == 0 {
        Seq::empty()
    } else if extensions[0].namespace == namespace && extensions[0].name == name {
        extensions[0].values
    } else {
        extension_values(extensions.drop_first(), namespace, name)
    }
}

/// The content of the first extension element with a namespace and a name.
pub open spec fn extension_value(item: ItemView, namespace: Seq<char>, name: Seq<char>) -> Option<
    Seq<char>,
> {
    let values = extension_values(item.extensions, namespace, name);
    if values.len() > 0 {
        values[0]
    } else {
        None
    }
}

/// Looks an extension element of an entry up.
pub fn extract_extension_value(item: &FeedItem, namespace: &str, key: &str) -> (r: Option<String>)
    ensures
        opt_text(r) == extension_value(item@, namespace@, key@),
{
    let ghost all = item@.extensions;
    let mut i: usize = 0;
    assert(all.skip(0) =~= all);
    while i < item.extensions.len()
        invariant
            i <= item.extensions.len(),
            all == item@.extensions,
            extension_values(all, namespace@, key@) == extension_values(
                all.skip(i as int),
                namespace@,
                key@,
            ),
        decreases item.extensions.len() - i,
    {
        assert(all.skip(i as int).drop_first() =~= all.skip(i + 1));
        let extension = &item.extensions[i];
        if same(extension.namespace.as_str(), namespace) && same(extension.name.as_str(), key) {
            assert(extension_values(all, namespace@, key@) == extension@.values);
            if extension.values.len() > 0 {
                return extension.values[0].clone();
            } else {
                return None;
            }
        }
        i = i + 1;
    }
    None
}

/// The movie that an entry tells of; an entry without a film title tells of
/// none.
pub open spec fn movie_of(item: ItemView) -> Option<MovieView> {
    match extension_value(item, "letterboxd"@, "filmTitle"@) {
        Some(film_title) => Some(
            MovieView {
                title: or_nothing(item.title),
                link: or_nothing(item.link),
                description: or_nothing(item.description),
                pub_date: item.pub_date,
                film_title: Some(film_title),
                rating: extension_value(item, "letterboxd"@, "memberRating"@),
                rewatch: extension_value(item, "letterboxd"@, "rewatch"@),
            },
        ),
        None => None,
    }
}

/// Reads the movie out of an entry.
pub fn read_movie(item: &FeedItem) -> (r: Option<LetterboxdMovie>)
    ensures
        match r {
            Some(m) => movie_of(item@) == Some(m@),
            None => movie_of(item@) is None,
        },
{
    let film_title = extract_extension_value(item, "letterboxd", "filmTitle");
    if film_title.is_none() {
        return None;
    }
    let movie = LetterboxdMovie {
        title: or_empty(&item.title),
        link: or_empty(&item.link),
        description: or_empty(&item.description),
        pub_date: item.pub_date.clone(),
        film_title,
        rating: extract_extension_value(item, "letterboxd", "memberRating"),
        rewatch: extract_extension_value(item, "letterboxd", "rewatch"),
    };
    assert(movie_of(item@) == Some(movie@));
    Some(movie)
}

/// The extension is the first of the entry with the namespace and the name.
pub open spec fn is_first_extension(
    item: ItemView,
    i: int,
    namespace: Seq<char>,
    name: Seq<char>,
) -> bool {
    &&& 0 <= i < item.extensions.len()
    &&& item.extensions[i].namespace == namespace
    &&& item.extensions[i].name == name
    &&& forall|j: int|
        0 <= j < i ==> (#[trigger] item.extensions[j]).namespace != namespace
            || item.extensions[j].name != name
}

/// The entry has no extension with the namespace and the name.
pub open spec fn lacks_extension(item: ItemView, namespace: Seq<char>, name: Seq<char>) -> bool {
    forall|j: int|
        0 <= j < item.extensions.len() ==> (#[trigger] item.extensions[j]).namespace != namespace
            || item.extensions[j].name != name
}

proof fn lemma_extension_values(
    extensions: Seq<ExtensionView>,
    i: int,
    namespace: Seq<char>,
    name: Seq<char>,
)
    requires
        0 <= i <= extensions.len(),
        forall|j: int|
            0 <= j < i ==> (#[trigger] extensions[j]).namespace != namespace || extensions[j].name
                != name,
        i < extensions.len() ==> extensions[i].namespace == namespace && extensions[i].name == name,
    ensures
        extension_values(extensions, namespace, name) == (if i < extensions.len() {
            extensions[i].values
        } else {
            Seq::empty()
        }),
    decreases extensions.len(),
{
    if extensions.len() > 0 && i > 0 {
        let rest = extensions.drop_first();
        assert(extensions[0].namespace != namespace || extensions[0].name != name);
        assert forall|j: int| 0 <= j < i - 1 implies (#[trigger] rest[j]).namespace != namespace
            || rest[j].name != name by {
            assert(rest[j] == extensions[j + 1]);
        }
        lemma_extension_values(rest, i - 1, namespace, name);
    }
}

/// The value of an extension is the content of the first element with its namespace
/// and name, and nothing where there is no such element.
pub proof fn the_first_element_counts(
    item: ItemView,
    i: int,
    namespace: Seq<char>,
    name: Seq<char>,
)
    ensures
        is_first_extension(item, i, namespace, name) && item.extensions[i].values.len() > 0
            ==> extension_value(item, namespace, name) == item.extensions[i].values[0],
        is_first_extension(item, i, namespace, name) && item.extensions[i].values.len() == 0
            ==> extension_value(item, namespace, name) is None,
        lacks_extension(item, namespace, name) ==> extension_value(item, namespace, name) is None,
{
    if is_first_extension(item, i, namespace, name) {
        lemma_extension_values(item.extensions, i, namespace, name);
    }
    if lacks_extension(item, namespace, name) {
        lemma_extension_values(item.extensions, item.extensions.len() as int, namespace, name);
    }
}

/// An entry tells of a movie exactly if its first `filmTitle` element names a film.
/// The movie is of that film; its rating and whether it is a rewatch are the contents
/// of the first `memberRating` and the first `rewatch` element, each whatever the
/// other extensions hold; title, link, review and date are the entry's own.
pub proof fn a_movie_is_what_its_entry_says(
    item: ItemView,
    film: int,
    rating: int,
    rewatch: int,
)
    requires
        is_first_extension(item, film, "letterboxd"@, "filmTitle"@),
        item.extensions[film].values.len() > 0,
    ensures
        movie_of(item) is Some <==> item.extensions[film].values[0] is Some,
        movie_of(item) matches Some(movie) ==> {
            &&& movie.film_title == item.extensions[film].values[0]
            &&& is_first_extension(item, rating, "letterboxd"@, "memberRating"@)
                && item.extensions[rating].values.len() > 0 ==> movie.rating
                == item.extensions[rating].values[0]
            &&& lacks_extension(item, "letterboxd"@, "memberRating"@) ==> movie.rating is None
            &&& is_first_extension(item, rewatch, "letterboxd"@, "rewatch"@)
                && item.extensions[rewatch].values.len() > 0 ==> movie.rewatch
                == item.extensions[rewatch].values[0]
            &&& lacks_extension(item, "letterboxd"@, "rewatch"@) ==> movie.rewatch is None
            &&& movie.pub_date == item.pub_date
            &&& item.title matches Some(title) ==> movie.title == title
            &&& item.title is None ==> movie.title.len() == 0
            &&& item.link matches Some(link) ==> movie.link == link
            &&& item.link is None ==> movie.link.len() == 0
            &&& item.description matches Some(review) ==> movie.description == review
            &&& item.description is None ==> movie.description.len() == 0
        },
{
    the_first_element_counts(item, film, "letterboxd"@, "filmTitle"@);
    the_first_element_counts(item, rating, "letterboxd"@, "memberRating"@);
    the_first_element_counts(item, rewatch, "letterboxd"@, "rewatch"@);
}

/// An entry without a film title tells of no movie.
pub proof fn no_film_title_no_movie(item: ItemView)
    requires
        lacks_extension(item, "letterboxd"@, "filmTitle"@),
    ensures
        movie_of(item) is None,
{
    the_first_element_counts(item, 0, "letterboxd"@, "filmTitle"@);
}

/// What an entry says of one thing stands on its own: two entries with the same
/// elements of a name, whatever else they hold, give movies that agree in it.
pub proof fn elements_stand_on_their_own(a: ItemView, b: ItemView)
    requires
        movie_of(a) is Some,
        movie_of(b) is Some,
    ensures
        extension_value(a, "letterboxd"@, "memberRating"@) == extension_value(
            b,
            "letterboxd"@,
            "memberRating"@,
        ) <==> movie_of(a)->0.rating == movie_of(b)->0.rating,
        extension_value(a, "letterboxd"@, "rewatch"@) == extension_value(
            b,
            "letterboxd"@,
            "rewatch"@,
        ) <==> movie_of(a)->0.rewatch == movie_of(b)->0.rewatch,
        a.pub_date == b.pub_date <==> movie_of(a)->0.pub_date == movie_of(b)->0.pub_date,
        a.title == b.title ==> movie_of(a)->0.title == movie_of(b)->0.title,
        a.link == b.link ==> movie_of(a)->0.link == movie_of(b)->0.link,
        a.description == b.description ==> movie_of(a)->0.description == movie_of(
            b,
        )->0.description,
{
}

} // verus!

//! The query parameters of a request.

use crate::text::{
    decimal, decimals_read_back, is_digit, other_texts_are_no_numbers, parse_usize, same,
    usize_text,
};
use vstd::prelude::*;

verus! {

/// The texts of a list of names and values.
pub open spec fn pair_texts(s: Seq<(String, String)>) -> Seq<(Seq<char>, Seq<char>)> {
    s.map_values(|p: (String, String)| (p.0@, p.1@))
}

/// The decoded names and values of a query string, in their order.
pub uninterp spec fn form_pairs(query: Seq<char>) -> Seq<(Seq<char>, Seq<char>)>;

/// `url::form_urlencoded::parse`: the `application/x-www-form-urlencoded` names
/// and values of a query string, percent-decoded and in their order, a function
/// of the string alone. The empty string has none.
#[verifier::external_body]
fn parse_pairs(query: &str) -> (r: Vec<(String, String)>)
    ensures
        pair_texts(r@) == form_pairs(query@),
        query@.len() == 0 ==> r@.len() == 0,
{
    url::form_urlencoded::parse(query.as_bytes()).into_owned().collect()
}

/// The value of the first parameter named `key`.
pub open spec fn first_value(pairs: Seq<(Seq<char>, Seq<char>)>, key: Seq<char>) -> Option<Seq<char>>
    decreases pairs.len(),
{
    if pairs.len() == 0 {
        None
    } else if pairs[0].0 == key {
        Some(pairs[0].1)
    } else {
        first_value(pairs.drop_first(), key)
    }
}

/// What a request asks for in its query string.
pub struct QueryOptions {
    pub feed_url: Option<String>,
    pub limit: Option<usize>,
    pub no_cache: bool,
}

/// The model of [`QueryOptions`].
#[verifier::ext_equal]
pub struct QueryOptionsView {
    pub feed_url: Option<Seq<char>>,
    pub limit: Option<usize>,
    pub no_cache: bool,
}

impl View for QueryOptions {
    type V = QueryOptionsView;

    open spec fn view(&self) -> QueryOptionsView {
        QueryOptionsView {
            feed_url: crate::text::opt_text(self.feed_url),
            limit: self.limit,
            no_cache: self.no_cache,
        }
    }
}

/// What a list of parameters asks for: the first `feed_url`; the first `limit`,
/// if it is a number; and to bypass the caches if the first `no_cache` is
/// `true`.
pub open spec fn options_of(pairs: Seq<(Seq<char>, Seq<char>)>) -> QueryOptionsView {
    QueryOptionsView {
        feed_url: first_value(pairs, "feed_url"@),
        limit: match first_value(pairs, "limit"@) {
            Some(v) => usize_text(v),
            None => None,
        },
        no_cache: first_value(pairs, "no_cache"@) == Some("true"@),
    }
}

/// Looks a parameter up by its name.
pub fn find_value(pairs: &Vec<(String, String)>, key: &str) -> (r: Option<String>)
    ensures
        crate::text::opt_text(r) == first_value(pair_texts(pairs@), key@),
{
    let ghost all = pair_texts(pairs@);
    let mut i: usize = 0;
    assert(all.skip(0) =~= all);
    while i < pairs.len()
        invariant
            i <= pairs.len(),
            all == pair_texts(pairs@),
            first_value(all, key@) == first_value(all.skip(i as int), key@),
        decreases pairs.len() - i,
    {
        assert(all.skip(i as int).drop_first() =~= all.skip(i + 1));
        if same(pairs[i].0.as_str(), key) {
            return Some(pairs[i].1.clone());
        }
        i = i + 1;
    }
    None
}

/// Reads the options out of decoded parameters.
pub fn read_options(pairs: &Vec<(String, String)>) -> (r: QueryOptions)
    ensures
        r@ == options_of(pair_texts(pairs@)),
{
    let limit: Option<usize> = match find_value(pairs, "limit") {
        Some(v) => parse_usize(v.as_str()),
        None => None,
    };
    let no_cache = match find_value(pairs, "no_cache") {
        Some(v) => same(v.as_str(), "true"),
        None => false,
    };
    QueryOptions { feed_url: find_value(pairs, "feed_url"), limit, no_cache }
}

/// What a request asks for that has no parameters: nothing.
pub open spec fn no_options() -> QueryOptionsView {
    QueryOptionsView { feed_url: None, limit: None, no_cache: false }
}

/// Reads the options out of a query string.
pub fn parse_options(query: &str) -> (r: QueryOptions)
    ensures
        r@ == options_of(form_pairs(query@)),
        query@.len() == 0 ==> r@ == no_options(),
{
    let pairs = parse_pairs(query);
    read_options(&pairs)
}

/// The parameter is the first of its name.
pub open spec fn is_first_of_name(
    pairs: Seq<(Seq<char>, Seq<char>)>,
    i: int,
    name: Seq<char>,
) -> bool {
    &&& 0 <= i < pairs.len()
    &&& pairs[i].0 == name
    &&& forall|j: int| 0 <= j < i ==> (#[trigger] pairs[j]).0 != name
}

/// No parameter has the name.
pub open spec fn is_not_given(pairs: Seq<(Seq<char>, Seq<char>)>, name: Seq<char>) -> bool {
    forall|j: int| 0 <= j < pairs.len() ==> (#[trigger] pairs[j]).0 != name
}

/// The value of a name is that of the first parameter of the name, if there is one.
pub proof fn the_first_of_a_name_counts(
    pairs: Seq<(Seq<char>, Seq<char>)>,
    name: Seq<char>,
    i: int,
)
    ensures
        is_first_of_name(pairs, i, name) ==> first_value(pairs, name) == Some(pairs[i].1),
        is_not_given(pairs, name) ==> first_value(pairs, name) is None,
    decreases pairs.len(),
{
    if pairs.len() > 0 {
        let rest = pairs.drop_first();
        the_first_of_a_name_counts(rest, name, i - 1);
        if is_first_of_name(pairs, i, name) && i > 0 {
            assert(pairs[0].0 != name);
            assert(rest[i - 1] == pairs[i]);
            assert forall|j: int| 0 <= j < i - 1 implies (#[trigger] rest[j]).0 != name by {
                assert(rest[j] == pairs[j + 1]);
            }
        }
        if is_not_given(pairs, name) {
            assert(pairs[0].0 != name);
            assert forall|j: int| 0 <= j < rest.len() implies (#[trigger] rest[j]).0 != name by {
                assert(rest[j] == pairs[j + 1]);
            }
        }
    }
}

/// Each option is what its own parameter says, whatever the others say: the feed is
/// the text of `feed_url`, the limit the number that `limit` holds, and the caches
/// are bypassed exactly if `no_cache` is `true`.
pub proof fn options_say_what_the_parameters_say(
    pairs: Seq<(Seq<char>, Seq<char>)>,
    i: int,
    n: nat,
)
    ensures
        is_first_of_name(pairs, i, "feed_url"@) ==> options_of(pairs).feed_url == Some(pairs[i].1),
        is_not_given(pairs, "feed_url"@) ==> options_of(pairs).feed_url is None,
        is_first_of_name(pairs, i, "limit"@) && n <= usize::MAX && pairs[i].1 == decimal(n)
            ==> options_of(pairs).limit == Some(n as usize),
        is_first_of_name(pairs, i, "limit"@) ==> options_of(pairs).limit == usize_text(pairs[i].1),
        is_first_of_name(pairs, i, "limit"@) && (forall|k: int|
            0 <= k < pairs[i].1.len() ==> !is_digit(#[trigger] pairs[i].1[k]))
            ==> options_of(pairs).limit is None,
        is_not_given(pairs, "limit"@) ==> options_of(pairs).limit is None,
        is_first_of_name(pairs, i, "no_cache"@) ==> (options_of(pairs).no_cache <==> pairs[i].1
            == "true"@),
        is_not_given(pairs, "no_cache"@) ==> !options_of(pairs).no_cache,
{
    the_first_of_a_name_counts(pairs, "feed_url"@, i);
    the_first_of_a_name_counts(pairs, "limit"@, i);
    the_first_of_a_name_counts(pairs, "no_cache"@, i);
    decimals_read_back(n);
    if is_first_of_name(pairs, i, "limit"@) && (forall|k: int|
        0 <= k < pairs[i].1.len() ==> !is_digit(#[trigger] pairs[i].1[k])) {
        let value = pairs[i].1;
        if value.len() > 0 && value[0] == '+' {
            if value.len() > 1 {
                other_texts_are_no_numbers(value, 1);
            }
        } else {
            other_texts_are_no_numbers(value, 0);
        }
    }
}

} // verus!

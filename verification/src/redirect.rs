//! Where a redirect leads.

use crate::text::joined;
use vstd::prelude::*;
use vstd::string::*;

verus! {

/// The texts of a result.
pub open spec fn result_texts(r: Result<String, String>) -> Result<Seq<char>, Seq<char>> {
    match r {
        Ok(t) => Ok(t@),
        Err(e) => Err(e@),
    }
}

/// The serialization of an absolute URL, or what is wrong with it.
pub uninterp spec fn parsed_url(input: Seq<char>) -> Result<Seq<char>, Seq<char>>;

/// `url::Url::parse`: the serialization of the URL that the input holds, or the
/// message of its `ParseError`, a function of the input alone.
#[verifier::external_body]
fn parse_url(input: &str) -> (r: Result<String, String>)
    ensures
        result_texts(r) == parsed_url(input@),
{
    match url::Url::parse(input) {
        Ok(u) => Ok(String::from(u)),
        Err(e) => Err(e.to_string()),
    }
}

/// The serialization of a reference resolved against a base URL, or what is wrong
/// with either.
pub uninterp spec fn joined_url(base: Seq<char>, reference: Seq<char>) -> Result<
    Seq<char>,
    Seq<char>,
>;

/// `url::Url::join` on the base that `url::Url::parse` reads: the serialization
/// of the resolved URL, or the message of the `ParseError` of either call, a
/// function of the two texts alone.
#[verifier::external_body]
fn join_url(base: &str, reference: &str) -> (r: Result<String, String>)
    ensures
        result_texts(r) == joined_url(base@, reference@),
{
    match url::Url::parse(base).and_then(|b| b.join(reference)) {
        Ok(u) => Ok(String::from(u)),
        Err(e) => Err(e.to_string()),
    }
}

/// The value of a `Location` header with the scheme it may lack: one that starts
/// with two slashes is taken to be HTTPS.
pub open spec fn with_scheme(location: Seq<char>) -> Seq<char> {
    if location.len() >= 2 && location[0] == '/' && location[1] == '/' {
        "https:"@ + location
    } else {
        location
    }
}

/// Supplies the scheme of a `Location` that starts with two slashes.
pub fn absolute_location(location: &str) -> (r: String)
    ensures
        r@ == with_scheme(location@),
{
    if location.unicode_len() >= 2 && location.get_char(0) == '/' && location.get_char(1) == '/' {
        joined("https:", location)
    } else {
        location.to_owned()
    }
}

/// Where a redirect from `current` leads: to the `Location` itself if it is an
/// absolute URL (`direct`), else to the `Location` taken relative to `current`
/// (`relative`), if `current` is a URL (`base`).
pub open spec fn redirect_target(
    current: Seq<char>,
    direct: Result<Seq<char>, Seq<char>>,
    base: Result<Seq<char>, Seq<char>>,
    relative: Result<Seq<char>, Seq<char>>,
) -> Result<Seq<char>, Seq<char>> {
    match (direct, base, relative) {
        (Ok(url), _, _) => Ok(url),
        (Err(_), Err(e), _) => Err("Invalid base URL "@ + current + ": "@ + e),
        (Err(_), Ok(_), Ok(url)) => Ok(url),
        (Err(_), Ok(_), Err(e)) => Err(
            "Failed to join base URL with relative redirect: "@ + e,
        ),
    }
}

/// Chooses where a redirect leads from the readings of its `Location`.
pub fn choose_target(
    current_url: &str,
    direct: Result<String, String>,
    base: Result<String, String>,
    relative: Result<String, String>,
) -> (r: Result<String, String>)
    ensures
        result_texts(r) == redirect_target(
            current_url@,
            result_texts(direct),
            result_texts(base),
            result_texts(relative),
        ),
{
    match direct {
        Ok(url) => Ok(url),
        Err(_) => match base {
            Err(e) => {
                let mut message = joined("Invalid base URL ", current_url);
                message.append(": ");
                message.append(e.as_str());
                Err(message)
            },
            Ok(_) => match relative {
                Ok(url) => Ok(url),
                Err(e) => Err(
                    joined("Failed to join base URL with relative redirect: ", e.as_str()),
                ),
            },
        },
    }
}

/// Where a redirect from `current` to the `Location` given leads.
pub open spec fn resolved(current: Seq<char>, location: Seq<char>) -> Result<
    Seq<char>,
    Seq<char>,
> {
    redirect_target(
        current,
        parsed_url(with_scheme(location)),
        parsed_url(current),
        joined_url(current, with_scheme(location)),
    )
}

/// Resolves the `Location` of a redirect against the URL that answered with it.
pub fn resolve_redirect(current_url: &str, location: &str) -> (r: Result<String, String>)
    ensures
        result_texts(r) == resolved(current_url@, location@),
{
    let fixed = absolute_location(location);
    choose_target(
        current_url,
        parse_url(fixed.as_str()),
        parse_url(current_url),
        join_url(current_url, fixed.as_str()),
    )
}

/// A redirect leads to the `Location` that the server names. One that begins with two
/// slashes is an HTTPS address; one that is no address of its own is taken relative
/// to where the redirect came from.
pub proof fn redirects_lead_to_their_location(current: Seq<char>, location: Seq<char>)
    requires
        !(location.len() >= 2 && location[0] == '/' && location[1] == '/'),
    ensures
        parsed_url(location) matches Ok(url) ==> resolved(current, location) == Ok::<
            Seq<char>,
            Seq<char>,
        >(url),
        parsed_url(location) is Err && parsed_url(current) is Ok ==> (match joined_url(
            current,
            location,
        ) {
            Ok(url) => resolved(current, location) == Ok::<Seq<char>, Seq<char>>(url),
            Err(e) => resolved(current, location) == Err::<Seq<char>, Seq<char>>(
                "Failed to join base URL with relative redirect: "@ + e,
            ),
        }),
        parsed_url(location) is Err ==> (parsed_url(current) matches Err(e) ==> resolved(
            current,
            location,
        ) == Err::<Seq<char>, Seq<char>>("Invalid base URL "@ + current + ": "@ + e)),
{
}

/// A `Location` that begins with two slashes leads where the same address with the
/// HTTPS scheme in front of it does.
pub proof fn two_slashes_mean_https(current: Seq<char>, location: Seq<char>)
    requires
        location.len() >= 2,
        location[0] == '/',
        location[1] == '/',
    ensures
        resolved(current, location) == resolved(current, "https:"@ + location),
        parsed_url("https:"@ + location) matches Ok(url) ==> resolved(current, location) == Ok::<
            Seq<char>,
            Seq<char>,
        >(url),
{
    reveal_strlit("https:");
    assert(("https:"@ + location)[0] == 'h');
}

} // verus!

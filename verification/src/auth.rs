//! The API key.

use crate::text::{joined, same};
use vstd::prelude::*;

verus! {

/// The `Authorization` header that presents a key or token.
pub open spec fn bearer(key: Seq<char>) -> Seq<char> {
    "Bearer "@ + key
}

/// Writes the `Authorization` header that presents a key or token.
pub fn bearer_authorization(key: &str) -> (r: String)
    ensures
        r@ == bearer(key@),
{
    joined("Bearer ", key)
}

/// The `Authorization` header of a request presents the API key.
pub open spec fn is_authorized(authorization: Option<String>, api_key: Seq<char>) -> bool {
    authorization matches Some(header) && header@ == bearer(api_key)
}

/// Whether a request presents the API key.
pub fn validate_api_key(authorization: &Option<String>, api_key: &str) -> (r: bool)
    ensures
        r == is_authorized(*authorization, api_key@),
{
    match authorization {
        Some(header) => same(header.as_str(), bearer_authorization(api_key).as_str()),
        None => false,
    }
}

/// A request is let in exactly if it presents the key behind the word `Bearer`: not
/// without a header, and no header opens to two keys.
pub proof fn only_the_key_opens(header: String, key: Seq<char>, other: Seq<char>)
    ensures
        is_authorized(Some(header), key) <==> header@ == "Bearer "@ + key,
        !is_authorized(None, key),
        is_authorized(Some(header), key) && is_authorized(Some(header), other) ==> key == other,
{
    if is_authorized(Some(header), key) && is_authorized(Some(header), other) {
        let n = "Bearer "@.len() as int;
        assert(header@.skip(n) =~= key);
        assert(header@.skip(n) =~= other);
    }
}

} // verus!

//! The reply of the search engine to a bulk request.

use vstd::prelude::*;

verus! {

/// What the body of a reply says of errors: the value of the member `errors`
/// of the JSON object that the body holds, where the body is JSON, has that
/// member, and the member is `true` or `false`; `None` in every other case.
pub uninterp spec fn errors_flag(body: Seq<u8>) -> Option<bool>;

/// Parses `body` with `serde_json::from_slice` into a `serde_json::Value`,
/// indexes it with `"errors"` and asks the result `as_bool`. Indexing a value
/// that is no object, or an object without the member, gives JSON's null, of
/// which `as_bool` is `None`; a body that does not parse gives `None` here.
/// What serde_json takes for JSON is not restated: the outcome depends on
/// the bytes alone and has the name [`errors_flag`].
#[verifier::external_body]
pub(crate) fn read_errors_flag(body: &[u8]) -> (flag: Option<bool>)
    ensures
        flag == errors_flag(body@),
{
    match serde_json::from_slice::<serde_json::Value>(body) {
        Ok(value) => value["errors"].as_bool(),
        Err(_) => None,
    }
}

} // verus!

//! The trusted boundary to the JSON parser.
//!
//! The listing response arrives as text; `serde_json` parses it and the one
//! wrapper here moves each element's two required string members out. What
//! the parser accepts, and which names and clone URLs a well-shaped body
//! carries, are functions of the text alone, so they are given names below;
//! every contract downstream speaks of the extraction through those names.

use vstd::prelude::*;

use crate::listing::ListError;

verus! {

/// The texts that `serde_json::from_str` accepts as one JSON document
/// (well-formed JSON within the parser's nesting limit, no trailing data).
pub uninterp spec fn accepted_json_text(s: Seq<char>) -> bool;

/// Whether an accepted document has the listing's shape: a JSON array
/// whose every element carries string members `name` and `clone_url`.
pub uninterp spec fn listing_shape_ok(s: Seq<char>) -> bool;

/// The `name` members of a well-shaped listing text, in array order.
pub uninterp spec fn listing_names(s: Seq<char>) -> Seq<Seq<char>>;

/// The `clone_url` members of a well-shaped listing text, in array order.
pub uninterp spec fn listing_urls(s: Seq<char>) -> Seq<Seq<char>>;

/// Relies on `serde_json::from_str::<Value>`, `Value::as_array`,
/// `Value::get` and `Value::as_str`: parses the body — acceptance depends
/// on the text alone — and moves every element's `name` and `clone_url`
/// string members out, complete and in array order; a body the parser
/// rejects, a non-array document, and the first element with a missing or
/// non-string member each report their own error.
#[verifier::external_body]
pub(crate) fn extract_listing(s: &str) -> (r: Result<Vec<(String, String)>, ListError>)
    ensures
        r is Ok <==> (accepted_json_text(s@) && listing_shape_ok(s@)),
        r matches Ok(v) ==> v@.map_values(|p: (String, String)| p.0@) == listing_names(s@),
        r matches Ok(v) ==> v@.map_values(|p: (String, String)| p.1@) == listing_urls(s@),
        r matches Err(e) ==> (e == ListError::InvalidJson <==> !accepted_json_text(s@)),
        r matches Err(e) ==> e == ListError::InvalidJson || e == ListError::NotAnArray || e
            == ListError::MissingName || e == ListError::MissingCloneUrl,
{
    let v: serde_json::Value = serde_json::from_str(s).map_err(|_| ListError::InvalidJson)?;
    let arr = v.as_array().ok_or(ListError::NotAnArray)?;
    let mut out: Vec<(String, String)> = Vec::new();
    for e in arr {
        let name = e.get("name").and_then(|f| f.as_str()).ok_or(ListError::MissingName)?;
        let url = e.get("clone_url").and_then(|f| f.as_str()).ok_or(ListError::MissingCloneUrl)?;
        out.push((name.to_owned(), url.to_owned()));
    }
    Ok(out)
}

} // verus!

//! The repository lister's verified half.
//!
//! The HTTP request itself happens outside the library; what arrives here is
//! the response body as text. This module parses that text into repository
//! descriptors — or into the precise error that says why the pass must be
//! skipped — and builds the request's Authorization header value and URL.

use vstd::prelude::*;

use crate::json::accepted_json_text;
use crate::json::extract_listing;
use crate::json::listing_names;
use crate::json::listing_shape_ok;
use crate::json::listing_urls;
use crate::repo::Repo;
use crate::text::spec_dec_digits;
use crate::text::u64_to_dec;
use vstd::string::StringExecFns;

verus! {

/// Why a listing attempt produced no descriptors.
///
/// `Network` is reserved for the caller that performs the HTTP request; the
/// parsing functions here never produce it. The other variants are the
/// protocol errors: the body is not JSON, not an array, or an element lacks
/// a required string field.
#[derive(Clone, Copy, Debug, PartialEq, Eq, Structural)]
pub enum ListError {
    Network,
    InvalidJson,
    NotAnArray,
    MissingName,
    MissingCloneUrl,
}

/// Repackages the extracted (name, clone URL) pairs as descriptors,
/// verbatim, complete and in order.
pub fn repos_from_pairs(pairs: Vec<(String, String)>) -> (r: Vec<Repo>)
    ensures
        r@.map_values(|x: Repo| x@.name) == pairs@.map_values(|p: (String, String)| p.0@),
        r@.map_values(|x: Repo| x@.clone_url) == pairs@.map_values(|p: (String, String)| p.1@),
{
    let mut repos: Vec<Repo> = Vec::new();
    let n = pairs.len();
    let mut i: usize = 0;
    while i < n
        invariant
            i <= n,
            n == pairs@.len(),
            repos@.len() == i,
            forall|j: int| 0 <= j < i ==> repos@[j]@.name == pairs@[j].0@ && repos@[j]@.clone_url
                == pairs@[j].1@,
        decreases n - i,
    {
        let name = pairs[i].0.clone();
        let clone_url = pairs[i].1.clone();
        repos.push(Repo { name, clone_url });
        i = i + 1;
    }
    proof {
        assert(repos@.map_values(|x: Repo| x@.name) =~= pairs@.map_values(
            |p: (String, String)| p.0@,
        ));
        assert(repos@.map_values(|x: Repo| x@.clone_url) =~= pairs@.map_values(
            |p: (String, String)| p.1@,
        ));
    }
    repos
}

/// Parses the listing response body. Success is owed exactly on a body the
/// JSON parser accepts that is an array of objects with string `name` and
/// `clone_url` members, and then the descriptors are the array's elements,
/// verbatim and in order; `InvalidJson` comes exactly on the texts the
/// parser rejects, and a transport error never arises here.
pub fn parse_repo_list(text: &str) -> (r: Result<Vec<Repo>, ListError>)
    ensures
        r is Ok <==> (accepted_json_text(text@) && listing_shape_ok(text@)),
        r matches Ok(v) ==> v@.map_values(|x: Repo| x@.name) == listing_names(text@),
        r matches Ok(v) ==> v@.map_values(|x: Repo| x@.clone_url) == listing_urls(text@),
        r == Err::<Vec<Repo>, ListError>(ListError::InvalidJson) <==> !accepted_json_text(text@),
        r matches Err(e) ==> e != ListError::Network,
{
    match extract_listing(text) {
        Err(e) => Err(e),
        Ok(pairs) => Ok(repos_from_pairs(pairs)),
    }
}

/// The value of the request's Authorization header: the fixed word `token`,
/// a space, and the bearer token.
pub fn auth_header_value(token: &str) -> (r: String)
    ensures
        r@ == "token "@ + token@,
{
    "token ".to_owned().concat(token)
}

/// The listing endpoint with the page size as its one query parameter.
pub fn list_url(page_size: u64) -> (r: String)
    ensures
        r@ == "https://api.github.com/user/repos?per_page="@ + spec_dec_digits(page_size as nat),
{
    "https://api.github.com/user/repos?per_page=".to_owned().concat(u64_to_dec(page_size).as_str())
}

/// The fixed browser-style User-Agent the hosting API expects.
pub fn user_agent() -> (r: String)
    ensures
        r@
            == "Mozilla/5.0 (Macintosh; Intel Mac OS X 10_15_7) AppleWebKit/537.36 (KHTML, like Gecko) Chrome/107.0.0.0 Safari/537.36"@,
{
    "Mozilla/5.0 (Macintosh; Intel Mac OS X 10_15_7) AppleWebKit/537.36 (KHTML, like Gecko) Chrome/107.0.0.0 Safari/537.36".to_owned()
}

} // verus!

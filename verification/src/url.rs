//! Credential injection into HTTPS clone URLs.
//!
//! The backup tool authenticates clones by inserting `<token>@` as user
//! info directly after the `https://` scheme. Injection is idempotent: a
//! URL that already carries the marker is left alone, so credentials never
//! stack, and the original URL can be recovered by stripping the marker.

use vstd::prelude::*;

use crate::text::is_prefix_of;
use crate::text::str_starts_with;
use vstd::string::StrSliceExecFns;
use vstd::string::StringExecFns;

verus! {

/// The characters of the mandatory `https://` scheme prefix.
pub open spec fn https_prefix() -> Seq<char> {
    seq!['h', 't', 't', 'p', 's', ':', '/', '/']
}

/// The user-info marker `<token>@` that injection places after the scheme.
pub open spec fn token_marker(token: Seq<char>) -> Seq<char> {
    token.push('@')
}

/// The authenticated form of `url`: `<token>@` inserted directly after
/// `https://`. A URL without that scheme, or one whose host part already
/// starts with the marker, is returned unchanged.
pub open spec fn spec_inject_token(url: Seq<char>, token: Seq<char>) -> Seq<char> {
    if is_prefix_of(https_prefix(), url) && !is_prefix_of(token_marker(token), url.skip(8)) {
        https_prefix() + token_marker(token) + url.skip(8)
    } else {
        url
    }
}

/// The inverse direction: a URL that starts with `https://<token>@` with the
/// marker removed; any other URL unchanged.
pub open spec fn spec_strip_token(url: Seq<char>, token: Seq<char>) -> Seq<char> {
    if is_prefix_of(https_prefix() + token_marker(token), url) {
        https_prefix() + url.skip(8 + token.len() as int + 1)
    } else {
        url
    }
}

/// Builds the authenticated clone URL for `url` and `token`.
pub fn inject_token(url: &str, token: &str) -> (r: String)
    ensures
        r@ == spec_inject_token(url@, token@),
{
    proof {
        reveal_strlit("https://");
        reveal_strlit("@");
        assert("https://"@ =~= https_prefix());
    }
    if !str_starts_with(url, "https://") {
        return url.to_owned();
    }
    let n = url.unicode_len();
    let rest = url.substring_char(8, n);
    proof {
        assert(rest@ =~= url@.skip(8));
    }
    let marker = token.to_owned().concat("@");
    proof {
        assert(marker@ =~= token_marker(token@));
    }
    if str_starts_with(rest, marker.as_str()) {
        return url.to_owned();
    }
    let r = "https://".to_owned().concat(token).concat("@").concat(rest);
    proof {
        assert(r@ =~= spec_inject_token(url@, token@));
    }
    r
}

/// Law: for a URL `https://` + rest whose rest does not already begin with
/// `token@`, the constructed clone URL is exactly
/// `https://` + token + `@` + rest — scheme preserved, one injection point,
/// untouched by any later `https://` occurring inside rest.
pub proof fn lemma_injection_form(rest: Seq<char>, token: Seq<char>)
    requires
        !is_prefix_of(token_marker(token), rest),
    ensures
        spec_inject_token(https_prefix() + rest, token) == https_prefix() + token_marker(token)
            + rest,
{
    let url = https_prefix() + rest;
    assert(is_prefix_of(https_prefix(), url)) by {
        assert(https_prefix() =~= url.subrange(0, 8));
    }
    assert(url.skip(8) =~= rest);
}

/// Law: injection never stacks credentials — injecting into an already
/// injected URL changes nothing.
pub proof fn lemma_inject_idempotent(url: Seq<char>, token: Seq<char>)
    ensures
        spec_inject_token(spec_inject_token(url, token), token) == spec_inject_token(url, token),
{
    if is_prefix_of(https_prefix(), url) && !is_prefix_of(token_marker(token), url.skip(8)) {
        let r = https_prefix() + token_marker(token) + url.skip(8);
        assert(is_prefix_of(https_prefix(), r)) by {
            assert(https_prefix() =~= r.subrange(0, 8));
        }
        assert(is_prefix_of(token_marker(token), r.skip(8))) by {
            assert(token_marker(token) =~= r.skip(8).subrange(
                0,
                token_marker(token).len() as int,
            ));
        }
    }
}

/// Law: injection loses nothing — stripping the marker from a freshly
/// injected URL gives back the original URL.
pub proof fn lemma_inject_reversible(url: Seq<char>, token: Seq<char>)
    requires
        is_prefix_of(https_prefix(), url),
        !is_prefix_of(token_marker(token), url.skip(8)),
    ensures
        spec_strip_token(spec_inject_token(url, token), token) == url,
{
    let r = https_prefix() + token_marker(token) + url.skip(8);
    assert(is_prefix_of(https_prefix() + token_marker(token), r)) by {
        assert(https_prefix() + token_marker(token) =~= r.subrange(
            0,
            (https_prefix() + token_marker(token)).len() as int,
        ));
    }
    assert(r.skip(8 + token.len() as int + 1) =~= url.skip(8));
    assert(https_prefix() + url.skip(8) =~= url);
}

} // verus!

//! Parsing and validation of `opener://` URLs.
//!
//! The syntactic work — deciding whether a string is a URI, splitting off
//! its scheme, and percent-decoding its query string — is done by the
//! `url` crate behind one trusted wrapper.  Everything that gives those
//! parts their meaning for this protocol (the scheme rule and the choice
//! of the `path` and callback parameters) is verified here.

use vstd::prelude::*;

use crate::error::OpenerError;
use crate::strutil::str_eq;

verus! {

/// Whether the string is a syntactically valid absolute URI,
/// as `url::Url::parse` decides it.
pub uninterp spec fn uri_parses(s: Seq<char>) -> bool;

/// The scheme of a parseable URI, as `url::Url::scheme` returns it
/// (lower-cased, without the trailing `:`).
pub uninterp spec fn uri_scheme(s: Seq<char>) -> Seq<char>;

/// The percent-decoded query parameters of a parseable URI, in order,
/// as `url::Url::query_pairs` yields them.
pub uninterp spec fn uri_query_pairs(s: Seq<char>) -> Seq<(Seq<char>, Seq<char>)>;

/// A URI split into the two parts this protocol reads: its scheme and
/// its decoded query parameters.
pub struct UriParts {
    pub scheme: String,
    pub pairs: Vec<(String, String)>,
}

/// The views of a list of key/value pairs.
pub open spec fn pairs_view(pairs: Seq<(String, String)>) -> Seq<(Seq<char>, Seq<char>)> {
    pairs.map_values(|p: (String, String)| (p.0@, p.1@))
}

/// The views of a list of strings.
pub open spec fn strs_view(keys: Seq<&str>) -> Seq<Seq<char>> {
    keys.map_values(|k: &str| k@)
}

/// Relies on `url::Url::parse` (whether the string is a syntactically
/// valid absolute URI), `url::Url::scheme` (the lower-cased scheme) and
/// `url::Url::query_pairs` (the form-urlencoded, percent-decoded query
/// parameters in order).  All three are deterministic in the string alone.
#[verifier::external_body]
fn split_uri(raw: &str) -> (r: Option<UriParts>)
    ensures
        r is Some <==> uri_parses(raw@),
        r matches Some(p) ==> p.scheme@ == uri_scheme(raw@),
        r matches Some(p) ==> pairs_view(p.pairs@) == uri_query_pairs(raw@),
{
    match url::Url::parse(raw) {
        Ok(u) => Some(UriParts {
            scheme: u.scheme().to_owned(),
            pairs: u.query_pairs().map(|(k, v)| (k.into_owned(), v.into_owned())).collect(),
        }),
        Err(_) => None,
    }
}

/// The value of the first pair whose key is `key`, if any.
pub open spec fn spec_first_value(
    pairs: Seq<(Seq<char>, Seq<char>)>,
    key: Seq<char>,
) -> Option<Seq<char>>
    decreases pairs.len(),
{
    if pairs.len() == 0 {
        None
    } else if pairs[0].0 == key {
        Some(pairs[0].1)
    } else {
        spec_first_value(pairs.skip(1), key)
    }
}

/// The value of the first pair whose key is any of `keys`, if any.
pub open spec fn spec_first_value_of_any(
    pairs: Seq<(Seq<char>, Seq<char>)>,
    keys: Seq<Seq<char>>,
) -> Option<Seq<char>>
    decreases pairs.len(),
{
    if pairs.len() == 0 {
        None
    } else if keys.contains(pairs[0].0) {
        Some(pairs[0].1)
    } else {
        spec_first_value_of_any(pairs.skip(1), keys)
    }
}

/// The view of an optional owned string.
pub open spec fn opt_str_view(o: Option<String>) -> Option<Seq<char>> {
    match o {
        None => None,
        Some(s) => Some(s@),
    }
}

/// Finds the first query parameter named `key`.
pub fn first_value(pairs: &Vec<(String, String)>, key: &str) -> (r: Option<String>)
    ensures
        opt_str_view(r) == spec_first_value(pairs_view(pairs@), key@),
{
    let ghost all = pairs_view(pairs@);
    let mut i: usize = 0;
    assert(all.skip(0) =~= all);
    while i < pairs.len()
        invariant
            i <= pairs.len(),
            all == pairs_view(pairs@),
            all.len() == pairs@.len(),
            spec_first_value(all, key@) == spec_first_value(all.skip(i as int), key@),
        decreases pairs.len() - i,
    {
        if str_eq(pairs[i].0.as_str(), key) {
            let r = Some(pairs[i].1.clone());
            assert(all.skip(i as int)[0] == all[i as int]);
            return r;
        }
        assert(all.skip(i as int)[0] == all[i as int]);
        assert(all.skip(i as int).skip(1) =~= all.skip(i as int + 1));
        i = i + 1;
    }
    assert(all.skip(i as int) =~= Seq::<(Seq<char>, Seq<char>)>::empty());
    None
}

/// Whether `s` equals one of `keys`.
fn key_matches(keys: &Vec<&str>, s: &str) -> (r: bool)
    ensures
        r == strs_view(keys@).contains(s@),
{
    let mut j: usize = 0;
    while j < keys.len()
        invariant
            j <= keys.len(),
            forall|k: int| 0 <= k < j ==> strs_view(keys@)[k] != s@,
        decreases keys.len() - j,
    {
        if str_eq(keys[j], s) {
            assert(strs_view(keys@)[j as int] == s@);
            return true;
        }
        j = j + 1;
    }
    assert(forall|k: int| 0 <= k < strs_view(keys@).len() ==> strs_view(keys@)[k] != s@);
    false
}

/// Finds the first query parameter whose name is any of `keys`.
pub fn first_value_of_any(pairs: &Vec<(String, String)>, keys: &Vec<&str>) -> (r: Option<String>)
    ensures
        opt_str_view(r) == spec_first_value_of_any(pairs_view(pairs@), strs_view(keys@)),
{
    let ghost all = pairs_view(pairs@);
    let ghost ks = strs_view(keys@);
    let mut i: usize = 0;
    assert(all.skip(0) =~= all);
    while i < pairs.len()
        invariant
            i <= pairs.len(),
            all == pairs_view(pairs@),
            ks == strs_view(keys@),
            all.len() == pairs@.len(),
            spec_first_value_of_any(all, ks) == spec_first_value_of_any(all.skip(i as int), ks),
        decreases pairs.len() - i,
    {
        if key_matches(keys, pairs[i].0.as_str()) {
            let r = Some(pairs[i].1.clone());
            assert(all.skip(i as int)[0] == all[i as int]);
            return r;
        }
        assert(all.skip(i as int)[0] == all[i as int]);
        assert(all.skip(i as int).skip(1) =~= all.skip(i as int + 1));
        i = i + 1;
    }
    assert(all.skip(i as int) =~= Seq::<(Seq<char>, Seq<char>)>::empty());
    None
}

/// The names under which a completion callback URL may be supplied.
/// An ad-hoc configuration list, not part of the protocol.
pub open spec fn spec_callback_aliases() -> Seq<Seq<char>> {
    seq!["callback"@, "after"@, "do"@]
}

/// The `path` parameter of a parseable URI, if any.
pub open spec fn spec_path_of(raw: Seq<char>) -> Option<Seq<char>> {
    spec_first_value(uri_query_pairs(raw), "path"@)
}

/// The callback parameter of a parseable URI, if any.
pub open spec fn spec_callback_of(raw: Seq<char>) -> Option<Seq<char>> {
    spec_first_value_of_any(uri_query_pairs(raw), spec_callback_aliases())
}

/// The accepted callback parameter names, in the order they are tried
/// against each query pair.
pub fn callback_aliases() -> (r: Vec<&'static str>)
    ensures
        strs_view(r@) == spec_callback_aliases(),
{
    let r: Vec<&'static str> = vec!["callback", "after", "do"];
    assert(strs_view(r@) =~= spec_callback_aliases());
    r
}

/// A successfully parsed activation URL: the pieces of the raw string
/// that the rest of the pipeline reads.
pub struct ParsedOpenerUrl {
    /// Always the `opener` scheme; parsing fails otherwise.
    pub scheme: String,
    /// The first `path` query parameter, if one was present.
    pub path: Option<String>,
    /// The first query parameter named by any accepted callback alias.
    pub callback: Option<String>,
}

impl ParsedOpenerUrl {
    /// Every value produced by `parse` carries the `opener` scheme.
    pub open spec fn wf(self) -> bool {
        self.scheme@ == crate::opener_scheme()
    }
}

/// Parses a raw activation string against the `opener` scheme grammar.
///
/// Rejects strings that are not URIs with `InvalidUrl`, and URIs of any
/// other scheme with `InvalidScheme`; otherwise returns the extracted
/// `path` and callback parameters.  Pure: no side effects.
pub fn parse(raw: &str) -> (r: Result<ParsedOpenerUrl, OpenerError>)
    ensures
        ((r matches Err(e) && e is InvalidUrl) <==> !uri_parses(raw@)),
        ((r matches Err(e) && e is InvalidScheme) <==> (uri_parses(raw@) && uri_scheme(raw@)
            != crate::opener_scheme())),
        (r is Ok <==> (uri_parses(raw@) && uri_scheme(raw@) == crate::opener_scheme())),
        r matches Ok(p) ==> p.wf() && p.scheme@ == uri_scheme(raw@) && opt_str_view(p.path)
            == spec_path_of(raw@) && opt_str_view(p.callback) == spec_callback_of(raw@),
{
    match split_uri(raw) {
        None => Err(OpenerError::InvalidUrl),
        Some(parts) => {
            if !str_eq(parts.scheme.as_str(), "opener") {
                Err(OpenerError::InvalidScheme)
            } else {
                let path = first_value(&parts.pairs, "path");
                let aliases = callback_aliases();
                let callback = first_value_of_any(&parts.pairs, &aliases);
                Ok(ParsedOpenerUrl { scheme: parts.scheme, path, callback })
            }
        },
    }
}

} // verus!

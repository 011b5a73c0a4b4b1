use vstd::prelude::*;
use vstd::string::*;
use vstd::utf8::*;
use reqwest::Url;

verus! {

/// The address that comes of parsing `base` as an absolute URL and putting
/// `path` and `query` in place of its own path and query string; none where
/// `base` is no absolute URL.
pub uninterp spec fn resolved_url(base: Seq<char>, path: Seq<char>, query: Option<Seq<char>>) -> Option<
    Seq<char>,
>;

/// The longest part of an address, in bytes, that is resolved.
pub const MAX_URL_PART: usize = 0x0100_0000;

/// Whether a part of an address is short enough to be resolved.
pub open spec fn fits(part: Seq<char>) -> bool {
    encode_utf8(part).len() <= MAX_URL_PART
}

/// An optional text as the contracts see it.
pub open spec fn opt_text(text: Option<String>) -> Option<Seq<char>> {
    match text {
        Some(s) => Some(s@),
        None => None,
    }
}

/// Whether base, path and query are all short enough to be resolved.
pub open spec fn all_fit(base: Seq<char>, path: Seq<char>, query: Option<Seq<char>>) -> bool {
    &&& fits(base)
    &&& fits(path)
    &&& query matches Some(q) ==> fits(q)
}

/// The target of a request: the resolved address, where every part is short
/// enough and the base is an absolute URL.
pub open spec fn target_url(base: Seq<char>, path: Seq<char>, query: Option<Seq<char>>) -> Option<
    Seq<char>,
> {
    if all_fit(base, path, query) {
        resolved_url(base, path, query)
    } else {
        None
    }
}

/// Parses the base and overwrites its path and query.
///
/// Trusted: `Url::parse`, then `Url::set_path` and `Url::set_query` on the
/// parsed value, then its serialization by `to_string`. The outcome depends on
/// the three texts alone. The two setters stop the program on a serialization
/// of 4 GiB or more, which the bound on the parts keeps far away.
#[verifier::external_body]
fn resolve_url(base: &str, path: &str, query: &Option<String>) -> (r: Option<String>)
    requires
        all_fit(base@, path@, opt_text(*query)),
    ensures
        opt_text(r) == resolved_url(base@, path@, opt_text(*query)),
{
    match Url::parse(base) {
        Ok(mut url) => {
            url.set_path(path);
            url.set_query(query.as_deref());
            Some(url.to_string())
        },
        Err(_) => None,
    }
}

fn is_short(part: &str) -> (r: bool)
    ensures
        r == fits(part@),
{
    part.as_bytes().len() <= MAX_URL_PART
}

/// The address of the upstream request: the configured base with the path and
/// the query string of the inbound request. None where the base is no absolute
/// URL, or a part is longer than `MAX_URL_PART` bytes.
pub fn format_target_url(base_url: &str, path: &str, query: &Option<String>) -> (r: Option<String>)
    ensures
        opt_text(r) == target_url(base_url@, path@, opt_text(*query)),
{
    if !is_short(base_url) || !is_short(path) {
        return None;
    }
    if let Some(q) = query {
        if !is_short(q.as_str()) {
            return None;
        }
    }
    resolve_url(base_url, path, query)
}

} // verus!

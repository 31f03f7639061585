//! Paths of the icons of the codex.

use vstd::prelude::*;

use crate::text::{seq_starts_with, starts_with, to_owned};

pub use crate::codex::item_html::parse_icon;

verus! {

/// The path of the absolute URL `url`, when `url` parses as one.
pub uninterp spec fn url_path(url: Seq<char>) -> Option<Seq<char>>;

/// The path of the absolute URL `url`, when it parses as one.
///
/// Calls `reqwest::Url::parse` (the `url` crate's `Url::parse`) and, on success,
/// `Url::path`. The contract only names the outcome (`url_path`): parsing and
/// percent-encoding follow the WHATWG URL standard, which is not restated here.
#[verifier::external_body]
fn parse_url_path(url: &str) -> (r: Option<String>)
    ensures
        match url_path(url@) {
            Some(p) => r matches Some(s) && s@ == p,
            None => r is None,
        },
{
    match reqwest::Url::parse(url) {
        Ok(u) => Some(u.path().to_string()),
        Err(_) => None,
    }
}

/// A URL path without its leading `/static/img`, then without its leading `/`.
pub open spec fn icon_path(path: Seq<char>) -> Seq<char> {
    let p = if seq_starts_with(path, "/static/img"@) {
        path.subrange(11, path.len() as int)
    } else {
        path
    };
    if seq_starts_with(p, "/"@) {
        p.subrange(1, p.len() as int)
    } else {
        p
    }
}

/// Strip the host and `/static/img` from the given URL.
pub fn icon_url_to_path(url: &str) -> (r: String)
    requires
        url_path(url@) is Some,
    ensures
        r@ == icon_path(url_path(url@).unwrap()),
{
    proof {
        reveal_strlit("/static/img");
        reveal_strlit("/");
    }
    let full = match parse_url_path(url) {
        Some(p) => p,
        None => String::new(),
    };
    let mut path = full.as_str();
    if starts_with(path, "/static/img") {
        let n = path.unicode_len();
        path = path.substring_char(11, n);
    }
    if starts_with(path, "/") {
        let n = path.unicode_len();
        path = path.substring_char(1, n);
    }
    to_owned(path)
}

/// The icon path of the given URL, or `None` when it does not parse as an absolute URL.
pub fn checked_icon_url_to_path(url: &str) -> (r: Option<String>)
    ensures
        match url_path(url@) {
            Some(p) => r matches Some(s) && s@ == icon_path(p),
            None => r is None,
        },
{
    match parse_url_path(url) {
        Some(_) => Some(icon_url_to_path(url)),
        None => None,
    }
}

} // verus!

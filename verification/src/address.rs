//! What the user types into the address bar, and the title shown for an
//! address.
//!
//! Turning typed text into an address is a three-way heuristic, not a URL
//! grammar: text with an explicit web scheme is taken as it is, text that
//! looks like a bare host gets `https://` in front, and anything else becomes
//! a web search.

use crate::text::{any_whitespace, chars_of, has_char, has_prefix, has_whitespace};
use vstd::prelude::*;

verus! {

/// The title of a page whose address has no host to show.
pub const FALLBACK_TITLE: &'static str = "Page";

/// The address of the search engine, up to the query.
pub const SEARCH_PREFIX: &'static str = "https://www.google.com/search?q=";

/// The title of a page whose address has no host to show.
pub open spec fn fallback_title() -> Seq<char> {
    FALLBACK_TITLE@
}

/// The address of the search engine, up to the query.
pub open spec fn search_prefix() -> Seq<char> {
    SEARCH_PREFIX@
}

/// The text begins with `http://` or `https://`.
pub open spec fn has_web_scheme(s: Seq<char>) -> bool {
    "http://"@.is_prefix_of(s) || "https://"@.is_prefix_of(s)
}

/// The text holds a dot and no whitespace.
pub open spec fn looks_like_host(s: Seq<char>) -> bool {
    s.contains('.') && !has_whitespace(s)
}

/// The text with each space replaced by a plus sign.
pub open spec fn plus_for_spaces(s: Seq<char>) -> Seq<char> {
    Seq::new(s.len(), |i: int| if s[i] == ' ' { '+' } else { s[i] })
}

/// The address that typed text stands for.
pub open spec fn normalized(s: Seq<char>) -> Seq<char> {
    if has_web_scheme(s) {
        s
    } else if looks_like_host(s) {
        "https://"@ + s
    } else {
        search_prefix() + plus_for_spaces(s)
    }
}

/// Turns typed text into an address.
pub fn normalize_url(input: &str) -> (url: String)
    ensures
        url@ == normalized(input@),
{
    let text = chars_of(input);
    let plain = chars_of("http://");
    let secure = chars_of("https://");
    if has_prefix(&text, &plain) || has_prefix(&text, &secure) {
        return input.to_string();
    }
    if has_char(&text, '.') && !any_whitespace(&text) {
        let mut url = "https://".to_string();
        url.append(input);
        return url;
    }
    let mut url = SEARCH_PREFIX.to_string();
    let mut i: usize = 0;
    while i < text.len()
        invariant
            i <= text.len(),
            url@ == search_prefix() + plus_for_spaces(text@).take(i as int),
        decreases text.len() - i,
    {
        let c = text[i];
        url.push(if c == ' ' { '+' } else { c });
        i += 1;
        proof {
            let p = plus_for_spaces(text@);
            assert(p.take(i as int) =~= p.take(i - 1).push(p[i - 1]));
        }
    }
    proof {
        let p = plus_for_spaces(text@);
        assert(p.take(text.len() as int) =~= p);
    }
    url
}

/// Whatever was typed, the address it stands for begins with `http://` or
/// `https://`; so an address that is taken for typed text comes back as it
/// is.
pub proof fn law_normalized_once(s: Seq<char>)
    ensures
        has_web_scheme(normalized(s)),
        normalized(normalized(s)) == normalized(s),
{
    reveal_strlit("https://");
    reveal_strlit("https://www.google.com/search?q=");
    let scheme = "https://"@;
    if !has_web_scheme(s) {
        if looks_like_host(s) {
            assert((scheme + s).subrange(0, scheme.len() as int) =~= scheme);
        } else {
            let url = search_prefix() + plus_for_spaces(s);
            assert(url.subrange(0, scheme.len() as int) =~= scheme);
        }
    }
}

/// The host of the URL that `text` parses to: `None` if the text is no URL,
/// `Some(None)` if it is one that has no host.
pub uninterp spec fn url_host(text: Seq<char>) -> Option<Option<Seq<char>>>;

/// `url::Url::parse` followed by `Url::host_str`. The result depends on the
/// text alone; the contract gives it the name [`url_host`] and says nothing
/// else of it.
#[verifier::external_body]
fn parse_host(text: &str) -> (host: Option<Option<String>>)
    ensures
        host.deep_view() == url_host(text@),
{
    match url::Url::parse(text) {
        Ok(parsed) => Some(parsed.host_str().map(String::from)),
        Err(_) => None,
    }
}

/// The title for a page, given what parsing its address found for a host.
pub open spec fn title_for(host: Option<Option<Seq<char>>>) -> Seq<char> {
    match host {
        Some(Some(name)) => name,
        _ => fallback_title(),
    }
}

/// The title for a page: the host that was found, or the fallback title
/// where the address did not parse or has no host.
pub fn title_for_host(host: Option<Option<String>>) -> (title: String)
    ensures
        title@ == title_for(host.deep_view()),
{
    match host {
        Some(Some(name)) => name,
        _ => FALLBACK_TITLE.to_string(),
    }
}

/// The title shown for the page at `url`.
pub fn page_title(url: &str) -> (title: String)
    ensures
        title@ == title_for(url_host(url@)),
{
    title_for_host(parse_host(url))
}

} // verus!

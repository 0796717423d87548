//! Address-bar normalisation and the navigation steps of a tab.

use vstd::prelude::*;

use crate::browser::tab::{Tab, TabView};
use crate::location::{parsed_url, url_encode, url_encoded, Url, UrlParseError, UrlView};
use crate::text::{push_str, str_eq, str_has_char, trim_ws, trimmed};

verus! {

/// Why an address-bar entry could not be turned into a URL.
#[derive(Debug, Clone, Copy, PartialEq, Eq)]
pub enum NavigationError {
    /// Even the search URL built from the entry failed to parse.
    SearchUrlInvalid,
}

/// The schemes that an entry may keep as it was typed.
pub open spec fn is_direct_scheme(scheme: Seq<char>) -> bool {
    scheme == "http"@ || scheme == "https"@ || scheme == "about"@
}

/// The prefix put before a bare domain.
pub open spec fn https_prefix() -> Seq<char> {
    "https://"@
}

/// The search URL that an entry falls back to, before its query is appended.
pub open spec fn search_prefix() -> Seq<char> {
    "https://www.google.com/search?q="@
}

/// An entry that looks like a bare domain: it has no space and has a dot.
pub open spec fn looks_like_domain(t: Seq<char>) -> bool {
    !t.contains(' ') && t.contains('.')
}

/// What the address bar makes of an entry: the trimmed entry itself where it
/// parses with an http, https or about scheme; else, for something that looks
/// like a bare domain and parses with `https://` in front, that; else a search
/// for the entry. `None` where not even the search URL parses.
pub open spec fn normalized(input: Seq<char>) -> Option<UrlView> {
    let t = trimmed(input);
    if parsed_url(t) is Some && is_direct_scheme(parsed_url(t)->0.scheme) {
        parsed_url(t)
    } else if looks_like_domain(t) && parsed_url(https_prefix() + t) is Some {
        parsed_url(https_prefix() + t)
    } else {
        parsed_url(search_prefix() + url_encoded(t))
    }
}

/// Whether the scheme of `u` is http, https or about.
fn has_direct_scheme(u: &Url) -> (res: bool)
    ensures
        res == is_direct_scheme(u@.scheme),
{
    let s = u.scheme();
    let r = str_eq(s, "http") || str_eq(s, "https") || str_eq(s, "about");
    r
}

/// Normalizes what a user typed into a URL: a URL with an http, https or
/// about scheme is kept, a bare domain gets `https://`, and anything else
/// becomes a search query.
pub fn normalize_url(input: &str) -> (res: Result<Url, NavigationError>)
    ensures
        match res {
            Ok(u) => normalized(input@) == Some(u@),
            Err(_) => normalized(input@) is None,
        },
{
    let trimmed_input = trim_ws(input);
    let t = trimmed_input.as_str();
    if let Ok(u) = Url::parse(t) {
        if has_direct_scheme(&u) {
            return Ok(u);
        }
    }
    if !str_has_char(t, ' ') && str_has_char(t, '.') {
        let mut candidate = String::from_str("https://");
        push_str(&mut candidate, t);
        if let Ok(u) = Url::parse(candidate.as_str()) {
            return Ok(u);
        }
    }
    let encoded = url_encode(t);
    let mut search = String::from_str("https://www.google.com/search?q=");
    push_str(&mut search, encoded.as_str());
    match Url::parse(search.as_str()) {
        Ok(u) => Ok(u),
        Err(_) => Err(NavigationError::SearchUrlInvalid),
    }
}

/// What headless navigation makes of a typed address: the address itself
/// where it parses as a URL, else the address with `https://` in front.
pub open spec fn headless_target_of(input: Seq<char>) -> Option<UrlView> {
    if parsed_url(input) is Some {
        parsed_url(input)
    } else {
        parsed_url(https_prefix() + input)
    }
}

/// Resolves the address given to headless navigation: it is parsed as it
/// stands, and where that fails, with `https://` in front. The error is that
/// of the second parse.
pub fn headless_target(input: &str) -> (res: Result<Url, UrlParseError>)
    ensures
        match res {
            Ok(u) => headless_target_of(input@) == Some(u@),
            Err(_) => headless_target_of(input@) is None,
        },
        match res {
            Ok(u) => parsed_url(input@) == Some(u@) || (parsed_url(input@) is None && parsed_url(
                "https://"@ + input@,
            ) == Some(u@)),
            Err(_) => parsed_url(input@) is None && parsed_url("https://"@ + input@) is None,
        },
{
    match Url::parse(input) {
        Ok(u) => Ok(u),
        Err(_) => {
            let mut candidate = String::from_str("https://");
            push_str(&mut candidate, input);
            Url::parse(candidate.as_str())
        },
    }
}

/// Navigate a tab to a new URL: the current URL goes onto the back stack and
/// the tab starts loading.
pub fn navigate(tab: &mut Tab, url: Url)
    ensures
        final(tab)@ == (TabView { loading: true, ..old(tab)@.pushed(url@) }),
{
    tab.push_navigation(url);
    tab.loading = true;
}

/// Move the tab back in history. Returns the URL to navigate the webview to.
pub fn go_back(tab: &mut Tab) -> (res: Option<Url>)
    ensures
        final(tab)@ == old(tab)@.went_back(),
        match res {
            Some(u) => old(tab)@.back.len() > 0 && u@ == final(tab)@.url,
            None => old(tab)@.back.len() == 0,
        },
{
    match tab.go_back() {
        Some(u) => Some(u.clone()),
        None => None,
    }
}

/// Move the tab forward in history. Returns the URL to navigate the webview
/// to.
pub fn go_forward(tab: &mut Tab) -> (res: Option<Url>)
    ensures
        final(tab)@ == old(tab)@.went_forward(),
        match res {
            Some(u) => old(tab)@.forward.len() > 0 && u@ == final(tab)@.url,
            None => old(tab)@.forward.len() == 0,
        },
{
    match tab.go_forward() {
        Some(u) => Some(u.clone()),
        None => None,
    }
}

/// Mark the tab as reloading (the webview does the reloading itself).
pub fn reload(tab: &mut Tab)
    ensures
        final(tab)@ == (TabView { loading: true, ..old(tab)@ }),
{
    tab.loading = true;
}

/// Cancel the ongoing load.
pub fn stop(tab: &mut Tab)
    ensures
        final(tab)@ == (TabView { loading: false, ..old(tab)@ }),
{
    tab.loading = false;
}

} // verus!

verus! {

/// What the address bar makes of an entry, case by case, with `t` the entry
/// without surrounding white space: a URL with an http, https or about
/// scheme is kept as typed; otherwise an entry with a space, or without a
/// dot, is a Google search for the percent-encoded entry; otherwise (a bare
/// domain) it gets `https://` in front, falling back to the search where
/// that does not parse.
pub proof fn lemma_normalized_cases(input: Seq<char>)
    ensures
        ({
            let t = trimmed(input);
            let direct = parsed_url(t);
            let search = parsed_url("https://www.google.com/search?q="@ + url_encoded(t));
            let domain = parsed_url("https://"@ + t);
            &&& (direct is Some && (direct->0.scheme == "http"@ || direct->0.scheme == "https"@
                || direct->0.scheme == "about"@)) ==> normalized(input) == direct
            &&& !(direct is Some && (direct->0.scheme == "http"@ || direct->0.scheme == "https"@
                || direct->0.scheme == "about"@)) && (t.contains(' ') || !t.contains('.'))
                ==> normalized(input) == search
            &&& !(direct is Some && (direct->0.scheme == "http"@ || direct->0.scheme == "https"@
                || direct->0.scheme == "about"@)) && !t.contains(' ') && t.contains('.')
                ==> normalized(input) == if domain is Some { domain } else { search }
        }),
{
}

} // verus!

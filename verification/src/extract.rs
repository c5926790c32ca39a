//! The library's trusted boundary to the `scraper` and `url` crates.
//!
//! Link extraction and URL normalization are performed by those crates; each
//! call stands behind one wrapper whose contract names the result. Everything
//! that decides on the extracted values is verified code elsewhere.

use vstd::prelude::*;

verus! {

/// The href attribute of every anchor in the document, in document order.
pub uninterp spec fn hrefs_of(html: Seq<char>) -> Seq<Seq<char>>;

/// Relies on `scraper::Html::parse_document` and `scraper::Selector` with the
/// selector `a`: collects the `href` attribute of every anchor element, in
/// document order. The result depends on the document text alone. The
/// selector is a constant that always parses.
#[verifier::external_body]
pub(crate) fn select_hrefs(html: &str) -> (r: Vec<String>)
    ensures
        r.deep_view() == hrefs_of(html@),
{
    let document = scraper::Html::parse_document(html);
    let selector = scraper::Selector::parse("a").unwrap();
    document
        .select(&selector)
        .filter_map(|element| element.value().attr("href").map(String::from))
        .collect()
}

/// The href attribute of every article anchor inside the main content body
/// of an encyclopedia page, in document order.
pub uninterp spec fn wiki_hrefs_of(html: Seq<char>) -> Seq<Seq<char>>;

/// Relies on `scraper::Html::parse_document` and `scraper::Selector` with the
/// selector `#mw-content-text .mw-parser-output p a[href^="/wiki/"]`:
/// collects the `href` attribute of every anchor matching it, in document
/// order. The result depends on the document text alone. The selector is a
/// constant that always parses.
#[verifier::external_body]
pub(crate) fn select_wiki_hrefs(html: &str) -> (r: Vec<String>)
    ensures
        r.deep_view() == wiki_hrefs_of(html@),
{
    let document = scraper::Html::parse_document(html);
    let selector = scraper::Selector::parse(
        "#mw-content-text .mw-parser-output p a[href^=\"/wiki/\"]",
    ).unwrap();
    document
        .select(&selector)
        .filter_map(|element| element.value().attr("href").map(String::from))
        .collect()
}

/// The normalized form of a URL string, if it parses.
pub uninterp spec fn norm_full_of(s: Seq<char>) -> Option<Seq<char>>;

/// Relies on `url::Url::parse` and `url::Url::as_str`: parses the string and
/// renders it back in normalized form; a string that does not parse yields
/// nothing. The result depends on the input string alone.
#[verifier::external_body]
pub(crate) fn parse_full(s: &str) -> (r: Option<String>)
    ensures
        r is Some <==> norm_full_of(s@) is Some,
        r is Some ==> r.unwrap()@ == norm_full_of(s@).unwrap(),
{
    match url::Url::parse(s) {
        Ok(u) => Some(String::from(u.as_str())),
        Err(_) => None,
    }
}

/// The normalized form of a URL string with its query component removed,
/// if it parses.
pub uninterp spec fn norm_stripped_of(s: Seq<char>) -> Option<Seq<char>>;

/// Relies on `url::Url::parse`, `url::Url::set_query` and `url::Url::as_str`:
/// parses the string, drops the query component, and renders the rest in
/// normalized form; a string that does not parse yields nothing. The result
/// depends on the input string alone.
#[verifier::external_body]
pub(crate) fn parse_stripped(s: &str) -> (r: Option<String>)
    ensures
        r is Some <==> norm_stripped_of(s@) is Some,
        r is Some ==> r.unwrap()@ == norm_stripped_of(s@).unwrap(),
{
    match url::Url::parse(s) {
        Ok(mut u) => {
            u.set_query(None);
            Some(String::from(u.as_str()))
        },
        Err(_) => None,
    }
}

/// An article href resolved against the encyclopedia's site root, if the
/// resolution succeeds.
pub uninterp spec fn wiki_resolved(href: Seq<char>) -> Option<Seq<char>>;

/// Relies on `url::Url::parse`, `url::Url::join` and `url::Url::as_str`:
/// resolves `href` against `https://en.wikipedia.org`; an href that cannot be
/// joined yields nothing. The result depends on the href alone.
#[verifier::external_body]
pub(crate) fn resolve_wiki(href: &str) -> (r: Option<String>)
    ensures
        r is Some <==> wiki_resolved(href@) is Some,
        r is Some ==> r.unwrap()@ == wiki_resolved(href@).unwrap(),
{
    match url::Url::parse("https://en.wikipedia.org") {
        Ok(base) => match base.join(href) {
            Ok(u) => Some(String::from(u.as_str())),
            Err(_) => None,
        },
        Err(_) => None,
    }
}

} // verus!

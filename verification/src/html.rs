//! Reading values out of an HTML document.
//!
//! Parsing HTML and matching CSS selectors is left to `scraper`. A parsed
//! document is carried through as it is; what the rules of this library read
//! from it are strings: the inner HTML and the attributes of the elements
//! that a selector matches.

use crate::text::{same_text, trim_text, trimmed};
use vstd::prelude::*;

verus! {

/// `scraper::Html`: a parsed document. Nothing inside it is visible here.
#[verifier::external_type_specification]
#[verifier::external_body]
pub struct ExDocument(scraper::Html);

/// `scraper::Selector`: a parsed CSS selector. Nothing inside it is visible
/// here.
#[verifier::external_type_specification]
#[verifier::external_body]
pub struct ExSelector(scraper::Selector);

/// The document that `scraper::Html::parse_document` builds from `text`.
pub uninterp spec fn html_document(text: Seq<char>) -> scraper::Html;

/// The selector that `scraper::Selector::parse` reads from `text`, or `None`
/// where it reports an error.
pub uninterp spec fn selector_of(text: Seq<char>) -> Option<scraper::Selector>;

/// The inner HTML of each element of `document` that `selector` matches, in
/// the order in which `scraper::Html::select` yields them.
pub uninterp spec fn matched_inner_html(
    document: scraper::Html,
    selector: scraper::Selector,
) -> Seq<Seq<char>>;

/// The value of the attribute `name` of each element of `document` that
/// `selector` matches, `None` for an element without it, in the order in
/// which `scraper::Html::select` yields them.
pub uninterp spec fn matched_attribute(
    document: scraper::Html,
    selector: scraper::Selector,
    name: Seq<char>,
) -> Seq<Option<Seq<char>>>;

/// Calls `scraper::Html::parse_document`, which builds a document from any
/// text and reports no error.
#[verifier::external_body]
pub(crate) fn parse_html(text: &str) -> (document: scraper::Html)
    ensures
        document == html_document(text@),
{
    scraper::Html::parse_document(text)
}

/// Calls `scraper::Selector::parse`. An error becomes `None`.
#[verifier::external_body]
fn parse_selector(text: &str) -> (selector: Option<scraper::Selector>)
    ensures
        selector == selector_of(text@),
{
    scraper::Selector::parse(text).ok()
}

/// Walks `scraper::Html::select` and takes `inner_html` of each element.
#[verifier::external_body]
fn inner_html_of_matches(document: &scraper::Html, selector: &scraper::Selector) -> (found: Vec<
    String,
>)
    ensures
        found.deep_view() == matched_inner_html(*document, *selector),
{
    document.select(selector).map(|element| element.inner_html()).collect()
}

/// Walks `scraper::Html::select` and takes the attribute `name` of each
/// element, as `scraper::node::Element::attr` returns it.
#[verifier::external_body]
fn attribute_of_matches(
    document: &scraper::Html,
    selector: &scraper::Selector,
    name: &str,
) -> (found: Vec<Option<String>>)
    ensures
        found.deep_view() == matched_attribute(*document, *selector, name@),
{
    document.select(selector).map(|element| element.value().attr(name).map(String::from)).collect()
}

/// The inner HTML of each element that the selector written as `selector`
/// matches; nothing where that is no selector.
pub open spec fn selected_blocks(document: scraper::Html, selector: Seq<char>) -> Seq<Seq<char>> {
    match selector_of(selector) {
        Some(parsed) => matched_inner_html(document, parsed),
        None => Seq::empty(),
    }
}

/// The value that a selector and an attribute name pick from a document.
///
/// It is read from the first element that the selector matches: for the
/// name `text` its inner HTML, for any other name the value of that
/// attribute; either without leading and trailing whitespace. There is no
/// value where `selector` is no selector, where it matches nothing, and
/// where the first match lacks the attribute.
pub open spec fn selected_text(document: scraper::Html, selector: Seq<char>, attr: Seq<char>) -> Option<
    Seq<char>,
> {
    match selector_of(selector) {
        Some(parsed) => if attr == "text"@ {
            let found = matched_inner_html(document, parsed);
            if found.len() > 0 {
                Some(trimmed(found[0]))
            } else {
                None
            }
        } else {
            let found = matched_attribute(document, parsed, attr);
            if found.len() > 0 && found[0] is Some {
                Some(trimmed(found[0]->0))
            } else {
                None
            }
        },
        None => None,
    }
}

/// The inner HTML of each element that `selector` matches, in order.
pub fn select_blocks(document: &scraper::Html, selector: &str) -> (blocks: Vec<String>)
    ensures
        blocks.deep_view() == selected_blocks(*document, selector@),
{
    match parse_selector(selector) {
        Some(parsed) => inner_html_of_matches(document, &parsed),
        None => {
            let none: Vec<String> = Vec::new();
            assert(none.deep_view() =~= Seq::<Seq<char>>::empty());
            none
        },
    }
}

/// Picks one value from a document: from the first element that `selector`
/// matches, the trimmed inner HTML where `attr` is `text`, else the trimmed
/// value of the attribute `attr`.
pub fn select_text(document: &scraper::Html, selector: &str, attr: &str) -> (value: Option<String>)
    ensures
        value.deep_view() == selected_text(*document, selector@, attr@),
{
    let parsed = match parse_selector(selector) {
        Some(parsed) => parsed,
        None => {
            return None;
        },
    };
    if same_text(attr, "text") {
        let found = inner_html_of_matches(document, &parsed);
        if found.len() > 0 {
            assert(found.deep_view()[0] == found@[0]@);
            Some(trim_text(found[0].as_str()))
        } else {
            None
        }
    } else {
        let found = attribute_of_matches(document, &parsed, attr);
        if found.len() > 0 {
            assert(found.deep_view()[0] == found@[0].deep_view());
            match &found[0] {
                Some(text) => Some(trim_text(text.as_str())),
                None => None,
            }
        } else {
            None
        }
    }
}

} // verus!

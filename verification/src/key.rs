//! Citation keys: a short identifier made from author, year and title.

use crate::text::{alphanumeric_only, first_token, strip_non_alphanumeric, take_first_token};
use vstd::prelude::*;

verus! {

/// One of the two filtered parts of a key: the first token of `text`, or
/// `fallback` where `text` has none, without the characters that are neither
/// alphabetic nor numeric.
pub open spec fn key_part(text: Seq<char>, fallback: Seq<char>) -> Seq<char> {
    alphanumeric_only(
        match first_token(text) {
            Some(token) => token,
            None => fallback,
        },
    )
}

/// The year as it stands in a key: `year` itself, unfiltered, or `ND` where
/// no year is known.
pub open spec fn key_year(year: Seq<char>) -> Seq<char> {
    if year.len() > 0 {
        year
    } else {
        "ND"@
    }
}

/// The citation key of an entry: author part, year and title part, with no
/// separator between them.
pub open spec fn citation_key(author: Seq<char>, year: Seq<char>, title: Seq<char>) -> Seq<char> {
    key_part(author, "Unknown"@) + key_year(year) + key_part(title, "NoTitle"@)
}

/// A citation key is never empty: its year part holds the year, or `ND`.
pub proof fn lemma_citation_key_nonempty(author: Seq<char>, year: Seq<char>, title: Seq<char>)
    ensures
        citation_key(author, year, title).len() > 0,
{
    reveal_strlit("ND");
}

/// The key is a function of its three inputs: the same author, year and
/// title give the same key.
pub proof fn lemma_citation_key_deterministic(
    author: Seq<char>,
    year: Seq<char>,
    title: Seq<char>,
    other_author: Seq<char>,
    other_year: Seq<char>,
    other_title: Seq<char>,
)
    requires
        author == other_author,
        year == other_year,
        title == other_title,
    ensures
        citation_key(author, year, title) == citation_key(other_author, other_year, other_title),
{
}

/// The filtered first token of `text`, or the filtered `fallback`.
fn make_key_part(text: &str, fallback: &str) -> (part: String)
    ensures
        part@ == key_part(text@, fallback@),
{
    match take_first_token(text) {
        Some(token) => strip_non_alphanumeric(token.as_str()),
        None => strip_non_alphanumeric(fallback),
    }
}

/// Builds the citation key of an entry, such as `Doe2024Hi`.
///
/// The author part is the first whitespace-delimited token of `author`
/// (`Unknown` where there is none), the title part that of `title`
/// (`NoTitle`); both lose every character that is neither alphabetic nor
/// numeric. The year stands between them as it is, `ND` where it is empty.
pub fn generate_citation_key(author: &str, year: &str, title: &str) -> (key: String)
    ensures
        key@ == citation_key(author@, year@, title@),
        key@.len() > 0,
{
    let mut key = make_key_part(author, "Unknown");
    if year.unicode_len() > 0 {
        key.append(year);
    } else {
        key.append("ND");
    }
    let title_part = make_key_part(title, "NoTitle");
    key.append(title_part.as_str());
    proof {
        lemma_citation_key_nonempty(author@, year@, title@);
    }
    key
}

} // verus!

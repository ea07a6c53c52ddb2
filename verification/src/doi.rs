//! DOI links: recognising one, and judging what the registry answered.
//!
//! A URL is a DOI link when it reads, from its first character on: an
//! optional `http://` or `https://`, an optional `dx.`, the host `doi.org`, a
//! slash, and a suffix of at least one character. The suffix runs to the end
//! of the line.

use crate::text::{starts_with_after_whitespace, to_chars, string_of_range, whitespace_end};
use vstd::prelude::*;

verus! {

/// Whether `prefix` stands in `s` at position `at`.
pub open spec fn has_prefix_at(s: Seq<char>, at: int, prefix: Seq<char>) -> bool {
    &&& 0 <= at
    &&& at + prefix.len() <= s.len()
    &&& s.subrange(at, at + prefix.len()) == prefix
}

/// The position behind `prefix` where it stands at `at`, else `at`.
pub open spec fn skip_optional(s: Seq<char>, at: int, prefix: Seq<char>) -> int {
    if has_prefix_at(s, at, prefix) {
        at + prefix.len()
    } else {
        at
    }
}

/// The position of the first line feed at or after `from`, or the length of
/// `s` when none follows.
pub open spec fn line_end(s: Seq<char>, from: int) -> int
    decreases s.len() - from,
{
    if 0 <= from < s.len() && s[from] != '\n' {
        line_end(s, from + 1)
    } else {
        from
    }
}

/// The position behind the scheme of `url`, 0 where it names none.
pub open spec fn scheme_end(url: Seq<char>) -> int {
    if has_prefix_at(url, 0, "https://"@) {
        "https://"@.len() as int
    } else {
        skip_optional(url, 0, "http://"@)
    }
}

/// The position at which the DOI suffix of `url` starts, if `url` is a DOI
/// link up to and including the slash behind the host.
pub open spec fn doi_suffix_start(url: Seq<char>) -> Option<int> {
    let host = skip_optional(url, scheme_end(url), "dx."@);
    if has_prefix_at(url, host, "doi.org/"@) {
        Some(host + "doi.org/"@.len())
    } else {
        None
    }
}

/// The DOI suffix of `url`: what follows `doi.org/` up to the end of the
/// line, where `url` is a DOI link and that is not empty.
pub open spec fn doi_suffix(url: Seq<char>) -> Option<Seq<char>> {
    match doi_suffix_start(url) {
        Some(start) => {
            let end = line_end(url, start);
            if start < end {
                Some(url.subrange(start, end))
            } else {
                None
            }
        },
        None => None,
    }
}

/// The address at which the registry is asked for the entry of a DOI.
pub open spec fn doi_lookup_url(suffix: Seq<char>) -> Seq<char> {
    "https://doi.org/"@ + suffix
}

/// Whether a reply with this status code counts as a success: the codes from
/// 200 to 299.
pub open spec fn status_is_success(status: u16) -> bool {
    200 <= status < 300
}

/// Whether `body` reads as a BibTeX entry: its first character that is no
/// whitespace is `@`.
pub open spec fn is_bibtex_body(body: Seq<char>) -> bool {
    let first = whitespace_end(body, 0);
    first < body.len() && body[first] == '@'
}

/// What `line_end` finds: no line feed from `from` up to it, and it is the
/// end of `s` or a line feed.
pub proof fn lemma_line_end(s: Seq<char>, from: int)
    requires
        0 <= from <= s.len(),
    ensures
        from <= line_end(s, from) <= s.len(),
        forall|i: int| from <= i < line_end(s, from) ==> #[trigger] s[i] != '\n',
        line_end(s, from) < s.len() ==> s[line_end(s, from)] == '\n',
    decreases s.len() - from,
{
    if from < s.len() && s[from] != '\n' {
        lemma_line_end(s, from + 1);
    }
}

/// A DOI suffix is never empty and holds no line feed.
pub proof fn lemma_doi_suffix_shape(url: Seq<char>)
    requires
        doi_suffix(url) is Some,
    ensures
        doi_suffix(url)->0.len() > 0,
        forall|i: int| 0 <= i < doi_suffix(url)->0.len() ==> #[trigger] doi_suffix(url)->0[i] != '\n',
{
    let start = doi_suffix_start(url)->0;
    reveal_strlit("https://");
    reveal_strlit("http://");
    reveal_strlit("dx.");
    reveal_strlit("doi.org/");
    lemma_line_end(url, start);
}

/// Where no line feed follows `from`, the line ends with `s`.
pub proof fn lemma_line_end_without_feed(s: Seq<char>, from: int)
    requires
        0 <= from <= s.len(),
        forall|i: int| from <= i < s.len() ==> #[trigger] s[i] != '\n',
    ensures
        line_end(s, from) == s.len(),
    decreases s.len() - from,
{
    if from < s.len() {
        lemma_line_end_without_feed(s, from + 1);
    }
}

/// The address that is asked of the registry is a DOI link again, with the
/// suffix that it was made from.
pub proof fn lemma_lookup_url_is_doi_link(suffix: Seq<char>)
    requires
        suffix.len() > 0,
        forall|i: int| 0 <= i < suffix.len() ==> #[trigger] suffix[i] != '\n',
    ensures
        doi_suffix(doi_lookup_url(suffix)) == Some(suffix),
{
    reveal_strlit("https://doi.org/");
    reveal_strlit("https://");
    reveal_strlit("http://");
    reveal_strlit("dx.");
    reveal_strlit("doi.org/");
    let url = doi_lookup_url(suffix);
    assert(url.subrange(0, 8) =~= "https://"@);
    assert(!has_prefix_at(url, 8, "dx."@)) by {
        assert(url.subrange(8, 11)[1] == 'o');
    }
    assert(url.subrange(8, 16) =~= "doi.org/"@);
    assert forall|i: int| 16 <= i < url.len() implies #[trigger] url[i] != '\n' by {
        assert(url[i] == suffix[i - 16]);
    }
    lemma_line_end_without_feed(url, 16);
    assert(url.subrange(16, url.len() as int) =~= suffix);
}

/// Whether `prefix` stands in `v` at position `at`.
pub fn prefix_stands_at(v: &[char], at: usize, prefix: &str) -> (found: bool)
    ensures
        found == has_prefix_at(v@, at as int, prefix@),
{
    let p = to_chars(prefix);
    if at > v.len() || p.len() > v.len() - at {
        return false;
    }
    let mut i: usize = 0;
    while i < p.len()
        invariant
            i <= p@.len(),
            at + p@.len() <= v.len(),
            p@ == prefix@,
            v@.subrange(at as int, at + i) == p@.take(i as int),
        decreases p@.len() - i,
    {
        if v[at + i] != p[i] {
            proof {
                assert(v@.subrange(at as int, at + p@.len())[i as int] == v@[at + i]);
            }
            return false;
        }
        proof {
            assert(v@.subrange(at as int, at + i + 1) == v@.subrange(at as int, at + i).push(
                v@[at + i],
            ));
            assert(p@.take(i + 1) == p@.take(i as int).push(p@[i as int]));
        }
        i += 1;
    }
    proof {
        assert(p@.take(p@.len() as int) == p@);
    }
    true
}

/// Recognises a DOI link and returns its suffix.
///
/// `None` means that `url` is no DOI link: the pattern does not stand at its
/// start, or nothing but a line feed follows the slash.
pub fn match_doi(url: &str) -> (suffix: Option<String>)
    ensures
        suffix is Some <==> doi_suffix(url@) is Some,
        suffix is Some ==> suffix->0@ == doi_suffix(url@)->0,
{
    let v = to_chars(url);
    proof {
        reveal_strlit("https://");
        reveal_strlit("http://");
        reveal_strlit("dx.");
        reveal_strlit("doi.org/");
    }
    let mut at: usize = 0;
    if prefix_stands_at(v.as_slice(), 0, "https://") {
        at = 8;
    } else if prefix_stands_at(v.as_slice(), 0, "http://") {
        at = 7;
    }
    if prefix_stands_at(v.as_slice(), at, "dx.") {
        at = at + 3;
    }
    if !prefix_stands_at(v.as_slice(), at, "doi.org/") {
        return None;
    }
    let start: usize = at + 8;
    let mut end: usize = start;
    while end < v.len() && v[end] != '\n'
        invariant
            start <= end <= v@.len(),
            line_end(v@, start as int) == line_end(v@, end as int),
        decreases v@.len() - end,
    {
        end += 1;
    }
    if start < end {
        Some(string_of_range(v.as_slice(), start, end))
    } else {
        None
    }
}

/// The address at which the registry is asked for the entry of the DOI with
/// this suffix.
pub fn lookup_url(suffix: &str) -> (url: String)
    ensures
        url@ == doi_lookup_url(suffix@),
{
    let mut url = "https://doi.org/".to_owned();
    url.append(suffix);
    url
}

/// Whether a reply with this status code counts as a success.
pub fn is_success(status: u16) -> (ok: bool)
    ensures
        ok == status_is_success(status),
{
    200 <= status && status < 300
}

/// Whether the registry's answer is taken as the entry: the reply was a
/// success and its body reads as a BibTeX entry.
pub fn accepts_registry_reply(status: u16, body: &str) -> (accepted: bool)
    ensures
        accepted == (status_is_success(status) && is_bibtex_body(body@)),
{
    is_success(status) && starts_with_after_whitespace(body, '@')
}

} // verus!

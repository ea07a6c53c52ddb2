//! Character-level helpers shared by the extraction stages.
//!
//! Strings are modelled by their sequence of characters. Whitespace is what
//! Unicode gives the property `White_Space`; which characters are alphabetic
//! or numeric is left to the standard library and appears in contracts under
//! a name.

use vstd::prelude::*;

verus! {

/// Whether `c` carries the Unicode property `White_Space`: the controls from
/// tab to carriage return, the space, next line, the no-break space, the
/// ogham space mark, the spaces from en quad to hair space, the line and the
/// paragraph separator, the narrow no-break space, the medium mathematical
/// space and the ideographic space.
pub open spec fn is_whitespace(c: char) -> bool {
    let code = c as u32;
    ||| 0x09 <= code <= 0x0D
    ||| code == 0x20
    ||| code == 0x85
    ||| code == 0xA0
    ||| code == 0x1680
    ||| 0x2000 <= code <= 0x200A
    ||| code == 0x2028
    ||| code == 0x2029
    ||| code == 0x202F
    ||| code == 0x205F
    ||| code == 0x3000
}

/// Whether `c` is alphabetic or numeric in the Unicode sense.
pub uninterp spec fn char_is_alphanumeric(c: char) -> bool;

/// `char::is_alphanumeric` decides whether its argument is alphabetic or numeric.
pub assume_specification[ char::is_alphanumeric ](c: char) -> (b: bool)
    ensures
        b == char_is_alphanumeric(c),
;

/// `String::push` appends one character to the end of the string.
pub assume_specification[ String::push ](s: &mut String, c: char)
    ensures
        final(s)@ == old(s)@.push(c),
;

/// Comparing two string slices with `==` compares their characters.
pub assume_specification[ <str as PartialEq>::eq ](a: &str, b: &str) -> (same: bool)
    ensures
        same == (a@ == b@),
;

/// The first position at or after `from` that holds no whitespace, or the
/// length of `s` when only whitespace follows.
pub open spec fn whitespace_end(s: Seq<char>, from: int) -> int
    decreases s.len() - from,
{
    if 0 <= from < s.len() && is_whitespace(s[from]) {
        whitespace_end(s, from + 1)
    } else {
        from
    }
}

/// The first position at or after `from` that holds whitespace, or the length
/// of `s` when none follows.
pub open spec fn word_end(s: Seq<char>, from: int) -> int
    decreases s.len() - from,
{
    if 0 <= from < s.len() && !is_whitespace(s[from]) {
        word_end(s, from + 1)
    } else {
        from
    }
}

/// The position just behind the last character that is no whitespace among
/// the first `to` characters of `s`, or 0 when they are all whitespace.
pub open spec fn content_end(s: Seq<char>, to: int) -> int
    decreases to,
{
    if 0 < to <= s.len() && is_whitespace(s[to - 1]) {
        content_end(s, to - 1)
    } else {
        to
    }
}

/// The first run of characters of `s` that holds no whitespace, if `s` holds
/// anything but whitespace.
pub open spec fn first_token(s: Seq<char>) -> Option<Seq<char>> {
    let start = whitespace_end(s, 0);
    if start < s.len() {
        Some(s.subrange(start, word_end(s, start)))
    } else {
        None
    }
}

/// `s` without its leading and trailing whitespace.
pub open spec fn trimmed(s: Seq<char>) -> Seq<char> {
    let start = whitespace_end(s, 0);
    if start < s.len() {
        s.subrange(start, content_end(s, s.len() as int))
    } else {
        Seq::empty()
    }
}

/// The characters of `s` that are alphabetic or numeric, in order.
pub open spec fn alphanumeric_only(s: Seq<char>) -> Seq<char> {
    s.filter(|c: char| char_is_alphanumeric(c))
}

/// The first four characters of `s`, or nothing where `s` is shorter.
pub open spec fn year_prefix(s: Seq<char>) -> Seq<char> {
    if s.len() >= 4 {
        s.take(4)
    } else {
        Seq::empty()
    }
}

/// What `whitespace_end` finds: everything from `from` up to it is
/// whitespace, and it is the end of `s` or holds no whitespace.
pub proof fn lemma_whitespace_end(s: Seq<char>, from: int)
    requires
        0 <= from <= s.len(),
    ensures
        from <= whitespace_end(s, from) <= s.len(),
        forall|i: int| from <= i < whitespace_end(s, from) ==> is_whitespace(#[trigger] s[i]),
        whitespace_end(s, from) < s.len() ==> !is_whitespace(s[whitespace_end(s, from)]),
    decreases s.len() - from,
{
    if from < s.len() && is_whitespace(s[from]) {
        lemma_whitespace_end(s, from + 1);
    }
}

/// What `word_end` finds: nothing from `from` up to it is whitespace, and it
/// is the end of `s` or holds whitespace.
pub proof fn lemma_word_end(s: Seq<char>, from: int)
    requires
        0 <= from <= s.len(),
    ensures
        from <= word_end(s, from) <= s.len(),
        forall|i: int| from <= i < word_end(s, from) ==> !is_whitespace(#[trigger] s[i]),
        word_end(s, from) < s.len() ==> is_whitespace(s[word_end(s, from)]),
    decreases s.len() - from,
{
    if from < s.len() && !is_whitespace(s[from]) {
        lemma_word_end(s, from + 1);
    }
}

/// What `content_end` finds: everything from it up to `to` is whitespace, and
/// it is 0 or the character before it is no whitespace.
pub proof fn lemma_content_end(s: Seq<char>, to: int)
    requires
        0 <= to <= s.len(),
    ensures
        0 <= content_end(s, to) <= to,
        forall|i: int| content_end(s, to) <= i < to ==> is_whitespace(#[trigger] s[i]),
        content_end(s, to) > 0 ==> !is_whitespace(s[content_end(s, to) - 1]),
    decreases to,
{
    if 0 < to && is_whitespace(s[to - 1]) {
        lemma_content_end(s, to - 1);
    }
}

/// A token is never empty and holds no whitespace.
pub proof fn lemma_first_token_shape(s: Seq<char>)
    requires
        first_token(s) is Some,
    ensures
        first_token(s)->0.len() > 0,
        forall|i: int|
            0 <= i < first_token(s)->0.len() ==> !is_whitespace(#[trigger] first_token(s)->0[i]),
{
    let start = whitespace_end(s, 0);
    lemma_whitespace_end(s, 0);
    lemma_word_end(s, start);
}

/// A year is four characters long, or empty.
pub proof fn lemma_year_prefix_length(date: Seq<char>)
    ensures
        year_prefix(date).len() == 4 || year_prefix(date).len() == 0,
        year_prefix(date).len() == 4 <==> date.len() >= 4,
        year_prefix(date).is_prefix_of(date),
{
}

/// A character that is no whitespace before position `to` keeps
/// `content_end` behind it.
pub proof fn lemma_content_end_after(s: Seq<char>, to: int, at: int)
    requires
        0 <= at < to <= s.len(),
        !is_whitespace(s[at]),
    ensures
        at < content_end(s, to),
    decreases to,
{
    if is_whitespace(s[to - 1]) {
        lemma_content_end_after(s, to - 1, at);
    }
}

/// Whether `c` is whitespace.
pub fn is_whitespace_char(c: char) -> (b: bool)
    ensures
        b == is_whitespace(c),
{
    let code = c as u32;
    (0x09 <= code && code <= 0x0D) || code == 0x20 || code == 0x85 || code == 0xA0 || code
        == 0x1680 || (0x2000 <= code && code <= 0x200A) || code == 0x2028 || code == 0x2029
        || code == 0x202F || code == 0x205F || code == 0x3000
}

/// The characters of `s`, in order.
pub fn to_chars(s: &str) -> (v: Vec<char>)
    ensures
        v@ == s@,
{
    let mut v: Vec<char> = Vec::new();
    for c in it: s.chars()
        invariant
            it.seq() == s@,
            v@ == s@.take(it.index()),
    {
        v.push(c);
    }
    v
}

/// The string made of the characters of `v` from position `from` up to, not
/// including, position `to`.
pub fn string_of_range(v: &[char], from: usize, to: usize) -> (s: String)
    requires
        from <= to <= v@.len(),
    ensures
        s@ == v@.subrange(from as int, to as int),
{
    let mut s = String::new();
    let mut i: usize = from;
    while i < to
        invariant
            from <= i <= to <= v@.len(),
            s@ == v@.subrange(from as int, i as int),
        decreases to - i,
    {
        s.push(v[i]);
        i += 1;
    }
    s
}

/// The string made of the characters of `v`, in order.
pub fn from_chars(v: &[char]) -> (s: String)
    ensures
        s@ == v@,
{
    string_of_range(v, 0, v.len())
}

/// The first whitespace-delimited token of `text`, or `None` where `text` is
/// empty or all whitespace.
pub fn take_first_token(text: &str) -> (token: Option<String>)
    ensures
        token is Some <==> first_token(text@) is Some,
        token is Some ==> token->0@ == first_token(text@)->0,
{
    let v = to_chars(text);
    let start = skip_whitespace(v.as_slice());
    if start == v.len() {
        return None;
    }
    let mut end: usize = start;
    while end < v.len() && !is_whitespace_char(v[end])
        invariant
            start <= end <= v@.len(),
            word_end(v@, start as int) == word_end(v@, end as int),
        decreases v@.len() - end,
    {
        end += 1;
    }
    Some(string_of_range(v.as_slice(), start, end))
}

/// `text` without the characters that are neither alphabetic nor numeric.
pub fn strip_non_alphanumeric(text: &str) -> (kept: String)
    ensures
        kept@ == alphanumeric_only(text@),
{
    let mut kept = String::new();
    for c in it: text.chars()
        invariant
            it.seq() == text@,
            kept@ == alphanumeric_only(text@.take(it.index())),
    {
        proof {
            reveal(Seq::filter);
            assert(text@.take(it.index() + 1).drop_last() == text@.take(it.index()));
        }
        if c.is_alphanumeric() {
            kept.push(c);
        }
    }
    proof {
        assert(text@.take(text@.len() as int) == text@);
    }
    kept
}

/// Whether `a` and `b` hold the same characters.
pub fn same_text(a: &str, b: &str) -> (same: bool)
    ensures
        same == (a@ == b@),
{
    a.eq(b)
}

/// The first four characters of `date`, or the empty string where `date` is
/// shorter than that.
pub fn year_of(date: &str) -> (year: String)
    ensures
        year@ == year_prefix(date@),
        year@.len() == 4 || year@.len() == 0,
{
    if date.unicode_len() >= 4 {
        date.substring_char(0, 4).to_owned()
    } else {
        String::new()
    }
}

/// The position of the first character of `v` that is no whitespace, or the
/// length of `v` when there is none.
pub fn skip_whitespace(v: &[char]) -> (start: usize)
    ensures
        start == whitespace_end(v@, 0),
        start <= v@.len(),
{
    let mut start: usize = 0;
    while start < v.len() && is_whitespace_char(v[start])
        invariant
            start <= v@.len(),
            whitespace_end(v@, 0) == whitespace_end(v@, start as int),
        decreases v@.len() - start,
    {
        start += 1;
    }
    start
}

/// `text` without its leading and trailing whitespace.
pub fn trim_text(text: &str) -> (kept: String)
    ensures
        kept@ == trimmed(text@),
{
    let v = to_chars(text);
    let start = skip_whitespace(v.as_slice());
    if start == v.len() {
        return String::new();
    }
    let mut end: usize = v.len();
    while end > 0 && is_whitespace_char(v[end - 1])
        invariant
            end <= v@.len(),
            content_end(v@, v@.len() as int) == content_end(v@, end as int),
        decreases end,
    {
        end -= 1;
    }
    proof {
        lemma_whitespace_end(v@, 0);
        lemma_content_end_after(v@, v@.len() as int, start as int);
    }
    string_of_range(v.as_slice(), start, end)
}

/// Whether the first character of `text` that is no whitespace is `mark`.
pub fn starts_with_after_whitespace(text: &str, mark: char) -> (found: bool)
    ensures
        found <==> (whitespace_end(text@, 0) < text@.len() && text@[whitespace_end(text@, 0)]
            == mark),
{
    let v = to_chars(text);
    let start = skip_whitespace(v.as_slice());
    start < v.len() && v[start] == mark
}

} // verus!

//! Articles described in structured data: decoding one JSON-LD block and
//! turning it into the fields of a citation.

use crate::json::{find_member, json_tree, member, parse_json, JsonValue};
use crate::text::{same_text, year_of, year_prefix};
use vstd::prelude::*;

verus! {

/// The fields of a citation as characters.
pub struct Fields {
    pub title: Seq<char>,
    pub author: Seq<char>,
    pub year: Seq<char>,
}

/// What was found out about a page. An empty field means "unknown".
#[derive(Debug, PartialEq, Eq)]
pub struct ExtractionResult {
    pub title: String,
    pub author: String,
    pub year: String,
}

impl View for ExtractionResult {
    type V = Fields;

    open spec fn view(&self) -> Fields {
        Fields { title: self.title@, author: self.author@, year: self.year@ }
    }
}

/// The fields of a result that may be missing.
pub open spec fn fields_of(result: Option<ExtractionResult>) -> Option<Fields> {
    match result {
        Some(found) => Some(found@),
        None => None,
    }
}

/// The characters of a string that may be missing.
pub open spec fn text_of(text: Option<String>) -> Option<Seq<char>> {
    match text {
        Some(s) => Some(s@),
        None => None,
    }
}

/// One decoded block of structured data, as characters.
pub struct ArticleFields {
    pub type_of: Seq<char>,
    pub headline: Option<Seq<char>>,
    pub authors: Seq<Seq<char>>,
    pub date_published: Option<Seq<char>>,
}

/// One decoded block of structured data: the `@type`, the `headline`, the
/// names of the authors in order, and `datePublished`.
#[derive(Debug, PartialEq, Eq)]
pub struct SchemaArticle {
    pub type_of: String,
    pub headline: Option<String>,
    pub authors: Vec<String>,
    pub date_published: Option<String>,
}

impl View for SchemaArticle {
    type V = ArticleFields;

    open spec fn view(&self) -> ArticleFields {
        ArticleFields {
            type_of: self.type_of@,
            headline: text_of(self.headline),
            authors: self.authors.deep_view(),
            date_published: text_of(self.date_published),
        }
    }
}

/// The article that a block may have decoded to, as characters.
pub open spec fn article_of(article: Option<SchemaArticle>) -> Option<ArticleFields> {
    match article {
        Some(found) => Some(found@),
        None => None,
    }
}

/// A member that may be absent and holds a string where it is present:
/// `Some(None)` for an absent or `null` member, `Some(Some(..))` for a
/// string, `None` for anything else.
pub open spec fn optional_text(field: Option<JsonValue>) -> Option<Option<Seq<char>>> {
    match field {
        None => Some(None),
        Some(JsonValue::Null) => Some(None),
        Some(JsonValue::Text(text)) => Some(Some(text@)),
        Some(_) => None,
    }
}

/// The name of one author: the string member `name` of an object.
pub open spec fn author_name(item: JsonValue) -> Option<Seq<char>> {
    match item {
        JsonValue::Object(members) => match member(members@, "name"@) {
            Some(JsonValue::Text(name)) => Some(name@),
            _ => None,
        },
        _ => None,
    }
}

/// Whether every item is an author with a name.
pub open spec fn all_named(items: Seq<JsonValue>) -> bool {
    forall|i: int| 0 <= i < items.len() ==> author_name(#[trigger] items[i]) is Some
}

/// The names of the authors: those of a list whose every item is an author
/// with a name, in order; nothing for an absent member and for any other
/// value.
pub open spec fn author_names(field: Option<JsonValue>) -> Seq<Seq<char>> {
    match field {
        Some(JsonValue::List(items)) => if all_named(items@) {
            Seq::new(items@.len(), |i: int| author_name(items@[i])->0)
        } else {
            Seq::empty()
        },
        _ => Seq::empty(),
    }
}

/// The article that a JSON document decodes to: an object whose `@type` is
/// a string and whose `headline` and `datePublished` are strings where they
/// are present.
pub open spec fn decoded_article(value: JsonValue) -> Option<ArticleFields> {
    match value {
        JsonValue::Object(members) => match (
            member(members@, "@type"@),
            optional_text(member(members@, "headline"@)),
            optional_text(member(members@, "datePublished"@)),
        ) {
            (Some(JsonValue::Text(type_of)), Some(headline), Some(date_published)) => Some(
                ArticleFields {
                    type_of: type_of@,
                    headline,
                    authors: author_names(member(members@, "author"@)),
                    date_published,
                },
            ),
            _ => None,
        },
        _ => None,
    }
}

/// Whether `type_of` is one of the accepted kinds of article.
pub open spec fn is_article_type(type_of: Seq<char>) -> bool {
    type_of == "Article"@ || type_of == "NewsArticle"@ || type_of == "BlogPosting"@
}

/// `parts` with `separator` between each two neighbours.
pub open spec fn joined(parts: Seq<Seq<char>>, separator: Seq<char>) -> Seq<char>
    decreases parts.len(),
{
    if parts.len() == 0 {
        Seq::empty()
    } else if parts.len() == 1 {
        parts[0]
    } else {
        joined(parts.drop_last(), separator) + separator + parts.last()
    }
}

/// The year that a date gives: its first four characters, nothing where no
/// date is known.
pub open spec fn year_of_date(date: Option<Seq<char>>) -> Seq<char> {
    match date {
        Some(text) => year_prefix(text),
        None => Seq::empty(),
    }
}

/// The fields that an article gives, where it is accepted: its type is one
/// of the accepted kinds and its headline is not empty.
pub open spec fn article_fields(article: ArticleFields) -> Option<Fields> {
    if is_article_type(article.type_of) && article.headline is Some && article.headline->0.len()
        > 0 {
        Some(
            Fields {
                title: article.headline->0,
                author: joined(article.authors, " and "@),
                year: year_of_date(article.date_published),
            },
        )
    } else {
        None
    }
}

/// The fields that one block of structured data gives: `text` is a JSON
/// document, decodes to an article, and the article is accepted.
pub open spec fn block_fields(text: Seq<char>) -> Option<Fields> {
    match json_tree(text) {
        Some(value) => match decoded_article(value) {
            Some(article) => article_fields(article),
            None => None,
        },
        None => None,
    }
}

/// Reads a member that may be absent and holds a string where it is present.
/// The outer `None` reports a member of another kind.
pub fn read_optional_text(field: Option<&JsonValue>) -> (text: Option<Option<String>>)
    ensures
        text is Some <==> optional_text(
            match field {
                Some(value) => Some(*value),
                None => None,
            },
        ) is Some,
        text is Some ==> text_of(text->0) == optional_text(
            match field {
                Some(value) => Some(*value),
                None => None,
            },
        )->0,
{
    match field {
        None => Some(None),
        Some(JsonValue::Null) => Some(None),
        Some(JsonValue::Text(text)) => Some(Some(text.clone())),
        Some(_) => None,
    }
}

/// Reads the name of one author.
pub fn read_author_name(item: &JsonValue) -> (name: Option<String>)
    ensures
        text_of(name) == author_name(*item),
{
    match item {
        JsonValue::Object(members) => match find_member(members, "name") {
            Some(JsonValue::Text(name)) => Some(name.clone()),
            _ => None,
        },
        _ => None,
    }
}

/// Reads the names of the authors from the member `author`. A member that is
/// absent or is no list of authors with names gives no names.
#[verifier::loop_isolation(false)]
pub fn read_author_names(field: Option<&JsonValue>) -> (names: Vec<String>)
    ensures
        names.deep_view() == author_names(
            match field {
                Some(value) => Some(*value),
                None => None,
            },
        ),
{
    match field {
        Some(JsonValue::List(items)) => {
            let mut names: Vec<String> = Vec::new();
            let mut i: usize = 0;
            while i < items.len()
                invariant
                    i <= items@.len(),
                    names@.len() == i,
                    forall|k: int| 0 <= k < i ==> author_name(#[trigger] items@[k]) is Some,
                    forall|k: int|
                        0 <= k < i ==> (#[trigger] names@[k])@ == author_name(items@[k])->0,
                decreases items@.len() - i,
            {
                match read_author_name(&items[i]) {
                    Some(name) => {
                        names.push(name);
                    },
                    None => {
                        let none: Vec<String> = Vec::new();
                        proof {
                            assert(author_name(items@[i as int]) is None);
                            assert(!all_named(items@));
                            assert(none.deep_view() =~= author_names(
                                Some(JsonValue::List(*items)),
                            ));
                        }
                        return none;
                    },
                }
                i += 1;
            }
            assert(names.deep_view() =~= author_names(Some(JsonValue::List(*items))));
            names
        },
        _ => Vec::new(),
    }
}

/// Decodes one JSON document as an article.
pub fn decode_article(value: &JsonValue) -> (article: Option<SchemaArticle>)
    ensures
        article_of(article) == decoded_article(*value),
{
    match value {
        JsonValue::Object(members) => {
            let type_of = match find_member(members, "@type") {
                Some(JsonValue::Text(text)) => text.clone(),
                _ => {
                    return None;
                },
            };
            let headline = match read_optional_text(find_member(members, "headline")) {
                Some(text) => text,
                None => {
                    return None;
                },
            };
            let date_published = match read_optional_text(find_member(members, "datePublished")) {
                Some(text) => text,
                None => {
                    return None;
                },
            };
            let authors = read_author_names(find_member(members, "author"));
            Some(SchemaArticle { type_of, headline, authors, date_published })
        },
        _ => None,
    }
}

/// Whether `type_of` is one of the accepted kinds of article.
pub fn accepts_type(type_of: &str) -> (accepted: bool)
    ensures
        accepted == is_article_type(type_of@),
{
    same_text(type_of, "Article") || same_text(type_of, "NewsArticle") || same_text(
        type_of,
        "BlogPosting",
    )
}

/// Joins `parts` with `separator` between each two neighbours.
pub fn join(parts: &Vec<String>, separator: &str) -> (text: String)
    ensures
        text@ == joined(parts.deep_view(), separator@),
{
    let mut text = String::new();
    let mut i: usize = 0;
    while i < parts.len()
        invariant
            i <= parts@.len(),
            text@ == joined(parts.deep_view().take(i as int), separator@),
        decreases parts@.len() - i,
    {
        proof {
            let before = parts.deep_view().take(i as int);
            let after = parts.deep_view().take(i + 1);
            assert(after.drop_last() == before);
            assert(after.last() == parts@[i as int]@);
        }
        if i > 0 {
            text.append(separator);
        }
        text.append(parts[i].as_str());
        i += 1;
    }
    proof {
        assert(parts.deep_view().take(parts@.len() as int) == parts.deep_view());
    }
    text
}

/// Turns a decoded article into the fields of a citation, where it is
/// accepted: the title is the headline, the author the names joined by
/// ` and `, the year the first four characters of the date.
pub fn article_to_fields(article: &SchemaArticle) -> (result: Option<ExtractionResult>)
    ensures
        fields_of(result) == article_fields(article@),
{
    if !accepts_type(article.type_of.as_str()) {
        return None;
    }
    let title = match &article.headline {
        Some(headline) => headline.clone(),
        None => {
            return None;
        },
    };
    if title.as_str().is_empty() {
        return None;
    }
    let author = join(&article.authors, " and ");
    let year = match &article.date_published {
        Some(date) => year_of(date.as_str()),
        None => String::new(),
    };
    Some(ExtractionResult { title, author, year })
}

/// Reads one block of structured data: the text of a JSON document that may
/// describe an article.
pub fn extract_from_block(text: &str) -> (result: Option<ExtractionResult>)
    ensures
        fields_of(result) == block_fields(text@),
{
    match parse_json(text) {
        Some(value) => match decode_article(&value) {
            Some(article) => article_to_fields(&article),
            None => None,
        },
        None => None,
    }
}

} // verus!

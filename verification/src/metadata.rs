//! The fields of a page: structured data first, meta tags as the fallback.

use crate::article::{
    block_fields, extract_from_block, fields_of, text_of, year_of_date, ExtractionResult, Fields,
};
use crate::html::{select_blocks, select_text, selected_blocks, selected_text};
use crate::text::year_of;
use vstd::prelude::*;

verus! {

/// The position of the first block at or after `from` that gives fields, or
/// the number of blocks when none follows.
pub open spec fn accepted_position(blocks: Seq<Seq<char>>, from: int) -> int
    decreases blocks.len() - from,
{
    if 0 <= from < blocks.len() && block_fields(blocks[from]) is None {
        accepted_position(blocks, from + 1)
    } else {
        from
    }
}

/// The fields of the first block that gives any.
pub open spec fn first_accepted(blocks: Seq<Seq<char>>) -> Option<Fields> {
    let at = accepted_position(blocks, 0);
    if 0 <= at < blocks.len() {
        block_fields(blocks[at])
    } else {
        None
    }
}

/// What `accepted_position` finds: no block from `from` up to it gives
/// fields, and it is the number of blocks or the place of one that does.
pub proof fn lemma_accepted_position(blocks: Seq<Seq<char>>, from: int)
    requires
        0 <= from <= blocks.len(),
    ensures
        from <= accepted_position(blocks, from) <= blocks.len(),
        forall|i: int|
            from <= i < accepted_position(blocks, from) ==> block_fields(#[trigger] blocks[i])
                is None,
        accepted_position(blocks, from) < blocks.len() ==> block_fields(
            blocks[accepted_position(blocks, from)],
        ) is Some,
    decreases blocks.len() - from,
{
    if from < blocks.len() && block_fields(blocks[from]) is None {
        lemma_accepted_position(blocks, from + 1);
    }
}

/// Blocks are taken in order: the fields are those of the earliest block
/// that gives any, and there are none only where no block gives any.
pub proof fn lemma_first_accepted_is_earliest(blocks: Seq<Seq<char>>, at: int)
    requires
        0 <= at < blocks.len(),
        block_fields(blocks[at]) is Some,
        forall|i: int| 0 <= i < at ==> block_fields(#[trigger] blocks[i]) is None,
    ensures
        first_accepted(blocks) == block_fields(blocks[at]),
{
    lemma_accepted_position(blocks, 0);
    let found = accepted_position(blocks, 0);
    if found < at {
        assert(block_fields(blocks[found]) is None);
    } else if found > at {
        assert(block_fields(blocks[at]) is None);
    }
}

/// The values of the meta tags that the fallback reads, as characters.
pub struct MetaTagFields {
    pub og_title: Option<Seq<char>>,
    pub page_title: Option<Seq<char>>,
    pub author: Option<Seq<char>>,
    pub article_author: Option<Seq<char>>,
    pub published_time: Option<Seq<char>>,
}

/// The values of the meta tags that the fallback reads. `None` stands for a
/// tag that the page does not have.
#[derive(Debug, PartialEq, Eq)]
pub struct MetaTags {
    /// The content of `meta[property='og:title']`.
    pub og_title: Option<String>,
    /// The inner text of the `title` element.
    pub page_title: Option<String>,
    /// The content of `meta[name='author']`.
    pub author: Option<String>,
    /// The content of `meta[property='article:author']`.
    pub article_author: Option<String>,
    /// The content of `meta[property='article:published_time']`.
    pub published_time: Option<String>,
}

impl View for MetaTags {
    type V = MetaTagFields;

    open spec fn view(&self) -> MetaTagFields {
        MetaTagFields {
            og_title: text_of(self.og_title),
            page_title: text_of(self.page_title),
            author: text_of(self.author),
            article_author: text_of(self.article_author),
            published_time: text_of(self.published_time),
        }
    }
}

/// The first of two values that is there, else the empty text.
pub open spec fn first_known(first: Option<Seq<char>>, second: Option<Seq<char>>) -> Seq<char> {
    match first {
        Some(text) => text,
        None => match second {
            Some(text) => text,
            None => Seq::empty(),
        },
    }
}

/// The fields that the meta tags give. Each field is resolved on its own:
/// the title from `og:title`, else from the `title` element; the author
/// from `author`, else from `article:author`; the year from the first four
/// characters of `article:published_time`.
pub open spec fn resolved(tags: MetaTagFields) -> Fields {
    Fields {
        title: first_known(tags.og_title, tags.page_title),
        author: first_known(tags.author, tags.article_author),
        year: year_of_date(tags.published_time),
    }
}

/// The meta tags of a document.
pub open spec fn meta_tags_of(document: scraper::Html) -> MetaTagFields {
    MetaTagFields {
        og_title: selected_text(document, "meta[property='og:title']"@, "content"@),
        page_title: selected_text(document, "title"@, "text"@),
        author: selected_text(document, "meta[name='author']"@, "content"@),
        article_author: selected_text(document, "meta[property='article:author']"@, "content"@),
        published_time: selected_text(
            document,
            "meta[property='article:published_time']"@,
            "content"@,
        ),
    }
}

/// The fields that the structured data of a document gives: those of the
/// first `application/ld+json` script that holds an accepted article.
pub open spec fn schema_fields(document: scraper::Html) -> Option<Fields> {
    first_accepted(selected_blocks(document, "script[type='application/ld+json']"@))
}

/// The fields of a document: those of its structured data where it has any,
/// else those of its meta tags.
pub open spec fn page_fields(document: scraper::Html) -> Fields {
    match schema_fields(document) {
        Some(fields) => fields,
        None => resolved(meta_tags_of(document)),
    }
}

/// Structured data comes first: where a document holds an accepted article,
/// its fields are those of the article, whatever the meta tags say.
pub proof fn lemma_structured_data_first(document: scraper::Html)
    requires
        schema_fields(document) is Some,
    ensures
        page_fields(document) == schema_fields(document)->0,
{
}

/// Meta tags are the fallback: a document without an accepted article has
/// the fields that its meta tags give.
pub proof fn lemma_meta_tags_otherwise(document: scraper::Html)
    requires
        schema_fields(document) is None,
    ensures
        page_fields(document) == resolved(meta_tags_of(document)),
{
}

/// An accepted article always brings a title: the fields that structured
/// data gives never lack one.
pub proof fn lemma_schema_title_nonempty(document: scraper::Html)
    requires
        schema_fields(document) is Some,
    ensures
        schema_fields(document)->0.title.len() > 0,
{
    let blocks = selected_blocks(document, "script[type='application/ld+json']"@);
    let at = accepted_position(blocks, 0);
    assert(block_fields(blocks[at]) is Some);
}

/// A year is four characters long or empty, whether it comes from
/// structured data or from a meta tag.
pub proof fn lemma_year_length(document: scraper::Html)
    ensures
        page_fields(document).year.len() == 4 || page_fields(document).year.len() == 0,
{
    let blocks = selected_blocks(document, "script[type='application/ld+json']"@);
    let at = accepted_position(blocks, 0);
    if schema_fields(document) is Some {
        assert(block_fields(blocks[at]) is Some);
    }
}

/// Scans blocks of structured data in order and returns the fields of the
/// first that holds an accepted article. A block that is no JSON, decodes to
/// no article or is not accepted is passed over.
pub fn extract_from_blocks(blocks: &Vec<String>) -> (result: Option<ExtractionResult>)
    ensures
        fields_of(result) == first_accepted(blocks.deep_view()),
{
    let mut at: usize = 0;
    while at < blocks.len()
        invariant
            at <= blocks@.len(),
            accepted_position(blocks.deep_view(), 0) == accepted_position(
                blocks.deep_view(),
                at as int,
            ),
        decreases blocks@.len() - at,
    {
        assert(blocks.deep_view()[at as int] == blocks@[at as int]@);
        match extract_from_block(blocks[at].as_str()) {
            Some(found) => {
                return Some(found);
            },
            None => {},
        }
        at += 1;
    }
    None
}

/// Extracts the fields of the first accepted article among the
/// `application/ld+json` scripts of a document.
pub fn extract_from_schema(document: &scraper::Html) -> (result: Option<ExtractionResult>)
    ensures
        fields_of(result) == schema_fields(*document),
{
    let blocks = select_blocks(document, "script[type='application/ld+json']");
    extract_from_blocks(&blocks)
}

/// Reads the meta tags that the fallback uses.
pub fn read_meta_tags(document: &scraper::Html) -> (tags: MetaTags)
    ensures
        tags@ == meta_tags_of(*document),
{
    MetaTags {
        og_title: select_text(document, "meta[property='og:title']", "content"),
        page_title: select_text(document, "title", "text"),
        author: select_text(document, "meta[name='author']", "content"),
        article_author: select_text(document, "meta[property='article:author']", "content"),
        published_time: select_text(
            document,
            "meta[property='article:published_time']",
            "content",
        ),
    }
}

/// The first of two strings that is there, else the empty string.
fn first_known_text(first: &Option<String>, second: &Option<String>) -> (text: String)
    ensures
        text@ == first_known(text_of(*first), text_of(*second)),
{
    match first {
        Some(text) => text.clone(),
        None => match second {
            Some(text) => text.clone(),
            None => String::new(),
        },
    }
}

/// Resolves the three fields from the meta tags, each on its own.
pub fn resolve_meta_tags(tags: &MetaTags) -> (result: ExtractionResult)
    ensures
        result@ == resolved(tags@),
{
    let year = match &tags.published_time {
        Some(date) => year_of(date.as_str()),
        None => String::new(),
    };
    ExtractionResult {
        title: first_known_text(&tags.og_title, &tags.page_title),
        author: first_known_text(&tags.author, &tags.article_author),
        year,
    }
}

/// Extracts title, author and year from a document: from its structured
/// data where that holds an accepted article, and only otherwise from its
/// meta tags.
pub fn extract_metadata(document: &scraper::Html) -> (result: ExtractionResult)
    ensures
        result@ == page_fields(*document),
        result@.year.len() == 4 || result@.year.len() == 0,
{
    proof {
        lemma_year_length(*document);
    }
    match extract_from_schema(document) {
        Some(found) => found,
        None => {
            let tags = read_meta_tags(document);
            resolve_meta_tags(&tags)
        },
    }
}

} // verus!

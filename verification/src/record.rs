//! The BibTeX entry that is written for a page.
//!
//! The values stand between the braces as they are: a brace or a backslash
//! in a title is not escaped.

use vstd::prelude::*;

verus! {

/// One line of an entry: two spaces, the name of the field, its value in
/// braces, a comma and a line feed.
pub open spec fn field_line(name: Seq<char>, value: Seq<char>) -> Seq<char> {
    "  "@ + name + " = {"@ + value + "},\n"@
}

/// A line that is written only for a value that is not empty.
pub open spec fn optional_line(name: Seq<char>, value: Seq<char>) -> Seq<char> {
    if value.len() > 0 {
        field_line(name, value)
    } else {
        Seq::empty()
    }
}

/// What an entry is made of.
pub struct EntryFields {
    pub key: Seq<char>,
    pub title: Seq<char>,
    pub author: Seq<char>,
    pub url: Seq<char>,
    pub accessed: Seq<char>,
    pub year: Seq<char>,
    pub url_date: Seq<char>,
    pub publisher: Seq<char>,
}

/// What an entry is made of. `accessed` and `url_date` are dates as they are
/// to be printed; `publisher` is the host of the page.
#[derive(Clone, Copy, Debug, PartialEq, Eq)]
pub struct Entry<'a> {
    pub key: &'a str,
    pub title: &'a str,
    pub author: &'a str,
    pub url: &'a str,
    pub accessed: &'a str,
    pub year: &'a str,
    pub url_date: &'a str,
    pub publisher: &'a str,
}

impl<'a> View for Entry<'a> {
    type V = EntryFields;

    open spec fn view(&self) -> EntryFields {
        EntryFields {
            key: self.key@,
            title: self.title@,
            author: self.author@,
            url: self.url@,
            accessed: self.accessed@,
            year: self.year@,
            url_date: self.url_date@,
            publisher: self.publisher@,
        }
    }
}

/// The text of an entry: `@misc{`, the key, and one line for each field in
/// the order title, author, howpublished, note, year, urldate, publisher;
/// the lines of author and year only where they are known. The closing
/// brace follows the last line, with no line feed behind it.
pub open spec fn record_text(entry: EntryFields) -> Seq<char> {
    "@misc{"@ + entry.key + ",\n"@ + field_line("title"@, entry.title) + optional_line(
        "author"@,
        entry.author,
    ) + field_line("howpublished"@, "\\url{"@ + entry.url + "}"@) + field_line(
        "note"@,
        "Accessed: "@ + entry.accessed,
    ) + optional_line("year"@, entry.year) + field_line("urldate"@, entry.url_date) + field_line(
        "publisher"@,
        entry.publisher,
    ) + "}"@
}

/// An entry opens with `@misc{` and its key, and closes with a brace that
/// no line feed follows.
pub proof fn lemma_record_shape(entry: EntryFields)
    ensures
        ("@misc{"@ + entry.key).is_prefix_of(record_text(entry)),
        record_text(entry).last() == '}',
{
    reveal_strlit("}");
    let lines = ",\n"@ + field_line("title"@, entry.title) + optional_line(
        "author"@,
        entry.author,
    ) + field_line("howpublished"@, "\\url{"@ + entry.url + "}"@) + field_line(
        "note"@,
        "Accessed: "@ + entry.accessed,
    ) + optional_line("year"@, entry.year) + field_line("urldate"@, entry.url_date) + field_line(
        "publisher"@,
        entry.publisher,
    ) + "}"@;
    assert(record_text(entry) =~= "@misc{"@ + entry.key + lines);
}

/// Writes one line of an entry.
pub fn write_field_line(name: &str, value: &str) -> (line: String)
    ensures
        line@ == field_line(name@, value@),
{
    let mut line = "  ".to_owned();
    line.append(name);
    line.append(" = {");
    line.append(value);
    line.append("},\n");
    line
}

/// Writes a line only for a value that is not empty.
pub fn write_optional_line(name: &str, value: &str) -> (line: String)
    ensures
        line@ == optional_line(name@, value@),
{
    if value.is_empty() {
        String::new()
    } else {
        write_field_line(name, value)
    }
}

/// Writes the entry of a page.
pub fn assemble_record(entry: &Entry) -> (text: String)
    ensures
        text@ == record_text(entry@),
{
    let mut how_published = "\\url{".to_owned();
    how_published.append(entry.url);
    how_published.append("}");
    let mut note = "Accessed: ".to_owned();
    note.append(entry.accessed);

    let mut text = "@misc{".to_owned();
    text.append(entry.key);
    text.append(",\n");
    text.append(write_field_line("title", entry.title).as_str());
    text.append(write_optional_line("author", entry.author).as_str());
    text.append(write_field_line("howpublished", how_published.as_str()).as_str());
    text.append(write_field_line("note", note.as_str()).as_str());
    text.append(write_optional_line("year", entry.year).as_str());
    text.append(write_field_line("urldate", entry.url_date).as_str());
    text.append(write_field_line("publisher", entry.publisher).as_str());
    text.append("}");
    text
}

} // verus!

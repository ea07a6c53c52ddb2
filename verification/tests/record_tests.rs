use bibtex_extractor::error::BibtexError;
use bibtex_extractor::record::{assemble_record, write_field_line, write_optional_line, Entry};

#[test]
fn field_line_shape() {
    assert_eq!(write_field_line("title", "Hi"), "  title = {Hi},\n");
    assert_eq!(write_field_line("publisher", ""), "  publisher = {},\n");
}

#[test]
fn optional_line_is_left_out_for_an_empty_value() {
    assert_eq!(write_optional_line("author", "Jane Doe"), "  author = {Jane Doe},\n");
    assert_eq!(write_optional_line("author", ""), "");
    assert_eq!(write_optional_line("year", " "), "  year = { },\n");
}

#[test]
fn record_with_every_field() {
    let entry = Entry {
        key: "Jane2024Hi",
        title: "Hi",
        author: "Jane Doe",
        url: "https://example.com/post",
        accessed: "2025-01-02",
        year: "2024",
        url_date: "2025-01-03",
        publisher: "example.com",
    };
    let expected = "@misc{Jane2024Hi,\n  title = {Hi},\n  author = {Jane Doe},\n  howpublished = {\\url{https://example.com/post}},\n  note = {Accessed: 2025-01-02},\n  year = {2024},\n  urldate = {2025-01-03},\n  publisher = {example.com},\n}";
    assert_eq!(assemble_record(&entry), expected);
}

#[test]
fn record_without_author_and_year() {
    let entry = Entry {
        key: "UnknownNDCool",
        title: "Cool Post",
        author: "",
        url: "https://example.com/",
        accessed: "2025-01-02",
        year: "",
        url_date: "2025-01-02",
        publisher: "",
    };
    let expected = "@misc{UnknownNDCool,\n  title = {Cool Post},\n  howpublished = {\\url{https://example.com/}},\n  note = {Accessed: 2025-01-02},\n  urldate = {2025-01-02},\n  publisher = {},\n}";
    assert_eq!(assemble_record(&entry), expected);
}

#[test]
fn record_does_not_escape_braces() {
    let entry = Entry {
        key: "k",
        title: "a } b { c \\ d",
        author: "",
        url: "u",
        accessed: "d",
        year: "",
        url_date: "d",
        publisher: "p",
    };
    let text = assemble_record(&entry);
    assert!(text.contains("  title = {a } b { c \\ d},\n"));
    assert!(text.ends_with(",\n}"));
    assert!(text.starts_with("@misc{k,\n"));
}

#[test]
fn error_status_codes_differ_by_kind() {
    assert_eq!(BibtexError::Transport("x".to_string()).status_code(), 500);
    assert_eq!(BibtexError::MalformedUrl("x".to_string()).status_code(), 400);
    assert_eq!(BibtexError::Extraction("x".to_string()).status_code(), 404);
}

#[test]
fn error_messages() {
    assert_eq!(
        BibtexError::Transport("connection refused".to_string()).message(),
        "Failed to fetch the URL: connection refused"
    );
    assert_eq!(
        BibtexError::MalformedUrl("relative URL without a base".to_string()).message(),
        "Invalid URL provided: relative URL without a base"
    );
    assert_eq!(
        BibtexError::Extraction("Could not find a title for the page.".to_string()).message(),
        "Could not extract BibTeX data: Could not find a title for the page."
    );
}

#[test]
fn error_detail_is_the_message_it_carries() {
    assert_eq!(BibtexError::Transport("a".to_string()).detail(), "a");
    assert_eq!(BibtexError::MalformedUrl("b".to_string()).detail(), "b");
    assert_eq!(BibtexError::Extraction("".to_string()).detail(), "");
}

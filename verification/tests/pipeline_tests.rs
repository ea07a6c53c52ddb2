use bibtex_extractor::error::BibtexError;
use bibtex_extractor::pipeline::{
    advance, after_registry, page_outcome, start, Pending, Reply, Request, Stage, Step,
};

fn answer(status: u16, status_text: &str, body: &str) -> Reply {
    Reply::Answer { status, status_text: status_text.to_string(), body: body.to_string() }
}

fn page_request(url: &str) -> Pending {
    Pending {
        url: url.to_string(),
        stage: Stage::Page,
        request: Request { url: url.to_string(), accept: None },
    }
}

const STRUCTURED_PAGE: &str = r#"<html><head><script type="application/ld+json">{"@type":"Article","headline":"Hi","author":[{"name":"Jane Doe"}],"datePublished":"2024-03-01"}</script></head></html>"#;

const META_PAGE: &str = r#"<html><head><meta property="og:title" content="Cool Post"></head></html>"#;

#[test]
fn start_asks_the_registry_for_a_doi_link() {
    let pending = start("https://doi.org/10.1000/xyz");
    assert_eq!(
        pending,
        Pending {
            url: "https://doi.org/10.1000/xyz".to_string(),
            stage: Stage::Registry,
            request: Request {
                url: "https://doi.org/10.1000/xyz".to_string(),
                accept: Some("application/x-bibtex; charset=utf-8".to_string()),
            },
        }
    );
}

#[test]
fn start_rewrites_the_address_of_a_doi_link() {
    let pending = start("dx.doi.org/10.5555/abc");
    assert_eq!(pending.url, "dx.doi.org/10.5555/abc");
    assert_eq!(pending.stage, Stage::Registry);
    assert_eq!(pending.request.url, "https://doi.org/10.5555/abc");
}

#[test]
fn start_fetches_the_page_of_any_other_url() {
    assert_eq!(start("https://example.com/post"), page_request("https://example.com/post"));
    assert_eq!(start("not a url"), page_request("not a url"));
}

#[test]
fn registry_entry_is_returned_verbatim() {
    let body = "@article{foo123, title={X}}";
    let pending = start("https://doi.org/10.1000/xyz");
    let step = advance(pending, answer(200, "200 OK", body));
    assert_eq!(step, Step::Done(Ok(body.to_string())));
}

#[test]
fn registry_entry_keeps_its_leading_whitespace() {
    let body = "\n  @article{foo123, title={X}}\n";
    let step = advance(start("https://doi.org/10.1000/xyz"), answer(200, "200 OK", body));
    assert_eq!(step, Step::Done(Ok(body.to_string())));
}

#[test]
fn registry_failure_falls_through_to_the_page() {
    let url = "https://doi.org/10.1000/xyz";
    let replies = vec![
        Reply::Failed("connection reset".to_string()),
        answer(404, "404 Not Found", "@article{foo123}"),
        answer(200, "200 OK", ""),
        answer(200, "200 OK", "  \n"),
        answer(200, "200 OK", "<html>not bibtex</html>"),
        answer(500, "500 Internal Server Error", "oops"),
    ];
    for reply in replies {
        assert_eq!(advance(start(url), reply), Step::Fetch(page_request(url)));
    }
}

#[test]
fn after_registry_decides_on_the_reply_alone() {
    assert_eq!(
        after_registry("u".to_string(), answer(204, "204 No Content", "@x")),
        Step::Done(Ok("@x".to_string()))
    );
    assert_eq!(
        after_registry("u".to_string(), Reply::Failed("x".to_string())),
        Step::Fetch(page_request("u"))
    );
}

#[test]
fn entry_of_a_page_with_structured_data() {
    let outcome = page_outcome(
        "https://example.com/post",
        &answer(200, "200 OK", STRUCTURED_PAGE),
        "2025-06-07",
        "2025-06-08",
    );
    let expected = "@misc{Jane2024Hi,\n  title = {Hi},\n  author = {Jane Doe},\n  howpublished = {\\url{https://example.com/post}},\n  note = {Accessed: 2025-06-07},\n  year = {2024},\n  urldate = {2025-06-08},\n  publisher = {example.com},\n}";
    assert_eq!(outcome, Ok(expected.to_string()));
}

#[test]
fn entry_of_a_page_with_meta_tags_only() {
    let outcome = page_outcome(
        "https://blog.example.org:8443/a/b?c=d",
        &answer(200, "200 OK", META_PAGE),
        "2025-06-07",
        "2025-06-07",
    );
    let expected = "@misc{UnknownNDCool,\n  title = {Cool Post},\n  howpublished = {\\url{https://blog.example.org:8443/a/b?c=d}},\n  note = {Accessed: 2025-06-07},\n  urldate = {2025-06-07},\n  publisher = {blog.example.org},\n}";
    assert_eq!(outcome, Ok(expected.to_string()));
}

#[test]
fn page_not_found_is_an_error() {
    let outcome = page_outcome(
        "https://example.com/missing",
        &answer(404, "404 Not Found", STRUCTURED_PAGE),
        "2025-06-07",
        "2025-06-07",
    );
    assert_eq!(
        outcome,
        Err(BibtexError::Extraction("URL returned status 404 Not Found".to_string()))
    );
}

#[test]
fn page_without_a_title_is_an_error() {
    let outcome = page_outcome(
        "https://example.com/empty",
        &answer(200, "200 OK", "<html><head></head><body><p>nothing here</p></body></html>"),
        "2025-06-07",
        "2025-06-07",
    );
    assert_eq!(
        outcome,
        Err(BibtexError::Extraction("Could not find a title for the page.".to_string()))
    );
}

#[test]
fn page_transport_failure_is_surfaced() {
    let outcome = page_outcome(
        "https://example.com/post",
        &Reply::Failed("dns error".to_string()),
        "2025-06-07",
        "2025-06-07",
    );
    assert_eq!(outcome, Err(BibtexError::Transport("dns error".to_string())));
}

#[test]
fn malformed_url_is_reported_before_the_title() {
    let outcome =
        page_outcome("example.com/post", &answer(200, "200 OK", META_PAGE), "d", "d");
    assert_eq!(
        outcome,
        Err(BibtexError::MalformedUrl("relative URL without a base".to_string()))
    );
    let untitled = page_outcome("//", &answer(200, "200 OK", "<p></p>"), "d", "d");
    assert!(matches!(untitled, Err(BibtexError::MalformedUrl(_))));
}

#[test]
fn bad_status_is_reported_before_a_malformed_url() {
    let outcome = page_outcome("no url", &answer(503, "503 Service Unavailable", ""), "d", "d");
    assert_eq!(
        outcome,
        Err(BibtexError::Extraction("URL returned status 503 Service Unavailable".to_string()))
    );
}

#[test]
fn url_without_a_host_has_an_empty_publisher() {
    let outcome = page_outcome("data:text/html,x", &answer(200, "200 OK", META_PAGE), "d", "d");
    let text = outcome.unwrap();
    assert!(text.contains("  publisher = {},\n"));
    assert!(text.contains("  howpublished = {\\url{data:text/html,x}},\n"));
}

#[test]
fn advance_writes_the_date_of_today() {
    let before = chrono::Local::now().format("%Y-%m-%d").to_string();
    let step = advance(page_request("https://example.com/post"), answer(200, "200 OK", META_PAGE));
    let after = chrono::Local::now().format("%Y-%m-%d").to_string();
    let text = match step {
        Step::Done(Ok(text)) => text,
        other => panic!("no entry: {:?}", other),
    };
    let with = |date: &str| {
        format!("@misc{{UnknownNDCool,\n  title = {{Cool Post}},\n  howpublished = {{\\url{{https://example.com/post}}}},\n  note = {{Accessed: {date}}},\n  urldate = {{{date}}},\n  publisher = {{example.com}},\n}}")
    };
    let mixed = with(&before).replace(&format!("urldate = {{{before}}}"), &format!("urldate = {{{after}}}"));
    assert!(text == with(&before) || text == with(&after) || text == mixed);
}

#[test]
fn advance_at_the_page_stage_always_ends() {
    let failed = advance(page_request("https://example.com"), Reply::Failed("timeout".to_string()));
    assert_eq!(failed, Step::Done(Err(BibtexError::Transport("timeout".to_string()))));
    let missing = advance(page_request("https://example.com"), answer(404, "404 Not Found", ""));
    assert_eq!(
        missing,
        Step::Done(Err(BibtexError::Extraction("URL returned status 404 Not Found".to_string())))
    );
}

#[test]
fn whole_run_for_a_doi_link_whose_registry_fails() {
    let url = "https://doi.org/10.1000/xyz";
    let first = start(url);
    assert_eq!(first.stage, Stage::Registry);
    let second = match advance(first, Reply::Failed("refused".to_string())) {
        Step::Fetch(next) => next,
        other => panic!("expected a fetch: {:?}", other),
    };
    assert_eq!(second, page_request(url));
    let outcome = advance(second, answer(200, "200 OK", "<title>Landing</title>"));
    match outcome {
        Step::Done(Ok(text)) => {
            assert!(text.starts_with("@misc{UnknownNDLanding,\n  title = {Landing},\n"));
            assert!(text.ends_with("  publisher = {doi.org},\n}"));
        },
        other => panic!("no entry: {:?}", other),
    }
}

fn is_printed_date(text: &str) -> bool {
    let chars: Vec<char> = text.chars().collect();
    if chars.len() < 10 {
        return false;
    }
    let (year, rest) = chars.split_at(chars.len() - 6);
    let digits = |part: &[char]| part.iter().all(|c| c.is_ascii_digit());
    let number = |part: &[char]| part.iter().fold(0, |sum, c| sum * 10 + c.to_digit(10).unwrap());
    let year_fits = (year.len() == 4 && digits(year))
        || (year.len() >= 5 && (year[0] == '+' || year[0] == '-') && digits(&year[1..]));
    year_fits
        && rest[0] == '-'
        && digits(&rest[1..3])
        && (1..=12).contains(&number(&rest[1..3]))
        && rest[3] == '-'
        && digits(&rest[4..6])
        && (1..=31).contains(&number(&rest[4..6]))
}

#[test]
fn dates_of_an_entry_are_printed_as_year_month_day() {
    let step = advance(page_request("https://example.com/post"), answer(200, "200 OK", META_PAGE));
    let text = match step {
        Step::Done(Ok(text)) => text,
        other => panic!("no entry: {:?}", other),
    };
    let between = |open: &str| {
        let start = text.find(open).unwrap() + open.len();
        let end = start + text[start..].find("},\n").unwrap();
        text[start..end].to_string()
    };
    let accessed = between("  note = {Accessed: ");
    let url_date = between("  urldate = {");
    assert!(is_printed_date(&accessed), "{:?}", accessed);
    assert!(is_printed_date(&url_date), "{:?}", url_date);
    assert_eq!(accessed.len(), 10);
    assert!(!is_printed_date("2025-13-01"));
    assert!(!is_printed_date("2025-6-7"));
    assert!(is_printed_date("+10000-01-31"));
}

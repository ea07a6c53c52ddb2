use bibtex_extractor::article::ExtractionResult;
use bibtex_extractor::html::{select_blocks, select_text};
use bibtex_extractor::metadata::{
    extract_from_blocks, extract_from_schema, extract_metadata, read_meta_tags,
    resolve_meta_tags, MetaTags,
};
use scraper::Html;

fn fields(title: &str, author: &str, year: &str) -> ExtractionResult {
    ExtractionResult {
        title: title.to_string(),
        author: author.to_string(),
        year: year.to_string(),
    }
}

const ARTICLE_PAGE: &str = r#"<html><head>
<title> Page Title </title>
<meta property="og:title" content="  Social Title ">
<meta name="author" content="Meta Author">
<meta property="article:published_time" content="2019-12-31T23:59:59Z">
<script type="application/ld+json">{"@type":"Article","headline":"Hi","author":[{"name":"Jane Doe"}],"datePublished":"2024-03-01"}</script>
</head><body><p class="a">first</p><p class="a" id="second">second</p></body></html>"#;

#[test]
fn select_text_reads_an_attribute_of_the_first_match() {
    let page = Html::parse_document(ARTICLE_PAGE);
    assert_eq!(
        select_text(&page, "meta[property='og:title']", "content"),
        Some("Social Title".to_string())
    );
    assert_eq!(select_text(&page, "meta[name='author']", "content"), Some("Meta Author".to_string()));
    assert_eq!(select_text(&page, "p.a", "class"), Some("a".to_string()));
}

#[test]
fn select_text_reads_the_inner_html_for_text() {
    let page = Html::parse_document(ARTICLE_PAGE);
    assert_eq!(select_text(&page, "title", "text"), Some("Page Title".to_string()));
    assert_eq!(select_text(&page, "p.a", "text"), Some("first".to_string()));
    let nested = Html::parse_document("<div> <b>bold</b> &amp; plain </div>");
    assert_eq!(select_text(&nested, "div", "text"), Some("<b>bold</b> &amp; plain".to_string()));
}

#[test]
fn select_text_has_no_value() {
    let page = Html::parse_document(ARTICLE_PAGE);
    assert_eq!(select_text(&page, "meta[property='article:author']", "content"), None);
    assert_eq!(select_text(&page, "h1", "text"), None);
    assert_eq!(select_text(&page, "p.a", "id"), None);
    assert_eq!(select_text(&page, "p[[", "text"), None);
    assert_eq!(select_text(&page, "", "content"), None);
}

#[test]
fn select_blocks_takes_every_match_in_order() {
    let page = Html::parse_document(ARTICLE_PAGE);
    assert_eq!(select_blocks(&page, "p.a"), vec!["first".to_string(), "second".to_string()]);
    assert_eq!(select_blocks(&page, "h1"), Vec::<String>::new());
    assert_eq!(select_blocks(&page, "p[["), Vec::<String>::new());
}

#[test]
fn fields_of_a_page_with_structured_data() {
    let page = Html::parse_document(
        r#"<script type="application/ld+json">{"@type":"Article","headline":"Hi","author":[{"name":"Jane Doe"}],"datePublished":"2024-03-01"}</script>"#,
    );
    assert_eq!(extract_from_schema(&page), Some(fields("Hi", "Jane Doe", "2024")));
    assert_eq!(extract_metadata(&page), fields("Hi", "Jane Doe", "2024"));
}

#[test]
fn fields_of_a_page_with_meta_tags_only() {
    let page = Html::parse_document(
        r#"<html><head><meta property="og:title" content="Cool Post"></head><body></body></html>"#,
    );
    assert_eq!(extract_from_schema(&page), None);
    assert_eq!(extract_metadata(&page), fields("Cool Post", "", ""));
}

#[test]
fn structured_data_wins_over_meta_tags() {
    let page = Html::parse_document(ARTICLE_PAGE);
    assert_eq!(extract_metadata(&page), fields("Hi", "Jane Doe", "2024"));
}

#[test]
fn meta_tags_are_read_each_on_its_own() {
    let page = Html::parse_document(ARTICLE_PAGE);
    assert_eq!(
        read_meta_tags(&page),
        MetaTags {
            og_title: Some("Social Title".to_string()),
            page_title: Some("Page Title".to_string()),
            author: Some("Meta Author".to_string()),
            article_author: None,
            published_time: Some("2019-12-31T23:59:59Z".to_string()),
        }
    );
}

#[test]
fn blocks_that_fail_are_passed_over() {
    let page = Html::parse_document(
        r#"<html><head>
<script type="application/ld+json">{ this is no json</script>
<script type="application/ld+json">{"@type":"Organization","name":"Example"}</script>
<script type="application/ld+json">{"@type":"Article","headline":""}</script>
<script type="application/ld+json">{"@type":"BlogPosting","headline":"Third","author":[{"name":"A"},{"name":"B"}]}</script>
<script type="application/ld+json">{"@type":"Article","headline":"Fourth"}</script>
<script type="text/javascript">{"@type":"Article","headline":"Not structured data"}</script>
</head></html>"#,
    );
    assert_eq!(extract_from_schema(&page), Some(fields("Third", "A and B", "")));
}

#[test]
fn first_accepted_block_of_a_list() {
    let blocks = vec![
        "nonsense".to_string(),
        r#"{"@type":"Article","headline":"One","datePublished":"1999"}"#.to_string(),
        r#"{"@type":"Article","headline":"Two"}"#.to_string(),
    ];
    assert_eq!(extract_from_blocks(&blocks), Some(fields("One", "", "1999")));
    assert_eq!(extract_from_blocks(&blocks[..1].to_vec()), None);
    assert_eq!(extract_from_blocks(&Vec::new()), None);
}

#[test]
fn meta_tags_fall_back_field_by_field() {
    let page = Html::parse_document(
        r#"<html><head><title>Only Title</title>
<meta property="article:author" content="Second Choice">
<meta property="article:published_time" content="2021"></head></html>"#,
    );
    assert_eq!(extract_metadata(&page), fields("Only Title", "Second Choice", "2021"));
}

fn tags(values: [Option<&str>; 5]) -> MetaTags {
    let [og_title, page_title, author, article_author, published_time] = values;
    MetaTags {
        og_title: og_title.map(String::from),
        page_title: page_title.map(String::from),
        author: author.map(String::from),
        article_author: article_author.map(String::from),
        published_time: published_time.map(String::from),
    }
}

#[test]
fn resolve_prefers_the_first_source_of_each_field() {
    assert_eq!(
        resolve_meta_tags(&tags([Some("og"), Some("title"), Some("a"), Some("b"), Some("2020-01-01")])),
        fields("og", "a", "2020")
    );
    assert_eq!(
        resolve_meta_tags(&tags([None, Some("title"), None, Some("b"), None])),
        fields("title", "b", "")
    );
    assert_eq!(resolve_meta_tags(&tags([None, None, None, None, None])), fields("", "", ""));
}

#[test]
fn resolve_keeps_an_empty_first_choice() {
    assert_eq!(
        resolve_meta_tags(&tags([Some(""), Some("title"), Some(""), Some("b"), Some("20")])),
        fields("", "", "")
    );
}

#[test]
fn page_without_anything_has_no_title() {
    let page = Html::parse_document("<html><head></head><body><p>text</p></body></html>");
    assert_eq!(extract_metadata(&page), fields("", "", ""));
}

#[test]
fn year_of_a_page_is_four_characters_or_empty() {
    let pages = [
        r#"<meta property="og:title" content="T"><meta property="article:published_time" content="7">"#,
        r#"<meta property="og:title" content="T"><meta property="article:published_time" content="2020-05">"#,
        r#"<script type="application/ld+json">{"@type":"Article","headline":"H","datePublished":"99"}</script>"#,
        r#"<script type="application/ld+json">{"@type":"Article","headline":"H","datePublished":"19990101"}</script>"#,
    ];
    let expected = ["", "2020", "", "1999"];
    for (page, year) in pages.iter().zip(expected) {
        let found = extract_metadata(&Html::parse_document(page));
        assert_eq!(found.year, year);
    }
}

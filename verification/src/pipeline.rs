//! The sequence of strategies, as a machine that is driven from outside.
//!
//! The library sends nothing itself. `start` says which request to make
//! first; `advance` takes the reply and says what comes next: another
//! request, or the outcome. A DOI link is first looked up at the registry,
//! and what the registry answers is returned as it is when it reads as a
//! BibTeX entry. In every other case the page itself is fetched and its
//! fields are extracted.

use crate::address::{describe_parse_error, parse_error_text, parse_host, url_host};
use crate::article::Fields;
use crate::clock::{is_date_text, local_date};
use crate::doi::{
    accepts_registry_reply, doi_lookup_url, doi_suffix, is_bibtex_body, is_success, lookup_url,
    match_doi, status_is_success,
};
use crate::error::{BibtexError, Failure};
use crate::html::{html_document, parse_html};
use crate::key::{citation_key, generate_citation_key};
use crate::metadata::{
    extract_metadata, lemma_schema_title_nonempty, meta_tags_of, page_fields, resolved,
    schema_fields,
};
use crate::record::{assemble_record, record_text, Entry, EntryFields};
use vstd::prelude::*;

verus! {

/// A GET request, as characters.
pub struct RequestFields {
    pub url: Seq<char>,
    pub accept: Option<Seq<char>>,
}

/// A GET request that the caller is to make.
#[derive(Debug, PartialEq, Eq)]
pub struct Request {
    /// The address to fetch.
    pub url: String,
    /// The value of the `Accept` header, where one is to be sent.
    pub accept: Option<String>,
}

impl View for Request {
    type V = RequestFields;

    open spec fn view(&self) -> RequestFields {
        RequestFields {
            url: self.url@,
            accept: match self.accept {
                Some(accept) => Some(accept@),
                None => None,
            },
        }
    }
}

/// A reply, as characters.
pub enum ReplyFields {
    Failed(Seq<char>),
    Answer { status: u16, status_text: Seq<char>, body: Seq<char> },
}

/// What came of a request.
#[derive(Debug, PartialEq, Eq)]
pub enum Reply {
    /// The request failed below HTTP, or the body could not be read. The
    /// text says why.
    Failed(String),
    /// The server answered: with this status code, the status as it is
    /// printed (`404 Not Found`), and this body.
    Answer { status: u16, status_text: String, body: String },
}

impl View for Reply {
    type V = ReplyFields;

    open spec fn view(&self) -> ReplyFields {
        match self {
            Reply::Failed(reason) => ReplyFields::Failed(reason@),
            Reply::Answer { status, status_text, body } => ReplyFields::Answer {
                status: *status,
                status_text: status_text@,
                body: body@,
            },
        }
    }
}

/// Which reply is awaited.
#[derive(Clone, Copy, Debug, PartialEq, Eq, Structural)]
pub enum Stage {
    /// That of the DOI registry.
    Registry,
    /// That of the page itself.
    Page,
}

/// A request in flight, as characters.
pub struct PendingFields {
    pub url: Seq<char>,
    pub stage: Stage,
    pub request: RequestFields,
}

/// A request in flight: the URL that a citation is wanted for, the reply
/// that is awaited, and the request to make.
#[derive(Debug, PartialEq, Eq)]
pub struct Pending {
    pub url: String,
    pub stage: Stage,
    pub request: Request,
}

impl View for Pending {
    type V = PendingFields;

    open spec fn view(&self) -> PendingFields {
        PendingFields { url: self.url@, stage: self.stage, request: self.request@ }
    }
}

/// An outcome, as characters.
pub open spec fn outcome_of(outcome: Result<String, BibtexError>) -> Result<Seq<char>, Failure> {
    match outcome {
        Ok(text) => Ok(text@),
        Err(error) => Err(error@),
    }
}

/// A step, as characters.
pub enum StepFields {
    Fetch(PendingFields),
    Done(Result<Seq<char>, Failure>),
}

/// What comes next.
#[derive(Debug, PartialEq, Eq)]
pub enum Step {
    /// Another request is to be made.
    Fetch(Pending),
    /// The work is done: the entry, or why there is none.
    Done(Result<String, BibtexError>),
}

impl View for Step {
    type V = StepFields;

    open spec fn view(&self) -> StepFields {
        match self {
            Step::Fetch(pending) => StepFields::Fetch(pending@),
            Step::Done(outcome) => StepFields::Done(outcome_of(*outcome)),
        }
    }
}

/// The representation that is asked of the registry.
pub open spec fn bibtex_media_type() -> Seq<char> {
    "application/x-bibtex; charset=utf-8"@
}

/// The stage at which the page itself is fetched.
pub open spec fn page_stage(url: Seq<char>) -> PendingFields {
    PendingFields { url, stage: Stage::Page, request: RequestFields { url, accept: None } }
}

/// The stage at which the registry is asked for the entry of a DOI.
pub open spec fn registry_stage(url: Seq<char>, suffix: Seq<char>) -> PendingFields {
    PendingFields {
        url,
        stage: Stage::Registry,
        request: RequestFields { url: doi_lookup_url(suffix), accept: Some(bibtex_media_type()) },
    }
}

/// Where the work starts: at the registry for a DOI link, at the page for
/// any other URL.
pub open spec fn first_pending(url: Seq<char>) -> PendingFields {
    match doi_suffix(url) {
        Some(suffix) => registry_stage(url, suffix),
        None => page_stage(url),
    }
}

/// Whether the registry's reply is taken as the entry: it is an answer with
/// a status of success whose body reads as a BibTeX entry.
pub open spec fn registry_accepts(reply: ReplyFields) -> bool {
    match reply {
        ReplyFields::Answer { status, status_text, body } => status_is_success(status)
            && is_bibtex_body(body),
        ReplyFields::Failed(_) => false,
    }
}

/// What follows the registry's reply: its body as the entry where it is
/// accepted, else the fetch of the page. A failed request counts as a reply
/// that is not accepted.
pub open spec fn registry_step(url: Seq<char>, reply: ReplyFields) -> StepFields {
    if registry_accepts(reply) {
        StepFields::Done(Ok(reply->body))
    } else {
        StepFields::Fetch(page_stage(url))
    }
}

/// The entry that is written for a page with these fields.
pub open spec fn page_entry(
    url: Seq<char>,
    fields: Fields,
    host: Option<Seq<char>>,
    accessed: Seq<char>,
    url_date: Seq<char>,
) -> EntryFields {
    EntryFields {
        key: citation_key(fields.author, fields.year, fields.title),
        title: fields.title,
        author: fields.author,
        url,
        accessed,
        year: fields.year,
        url_date,
        publisher: match host {
            Some(name) => name,
            None => Seq::empty(),
        },
    }
}

/// What comes of the page's reply.
///
/// A failed request is a transport failure. An answer whose status is no
/// success is an extraction failure that names the status. Then the URL
/// must have a host part that can be read, else it is malformed. Then the
/// page must give a title, else nothing could be extracted. Otherwise the
/// outcome is the entry of the page, with `accessed` in its note and
/// `url_date` as its urldate.
pub open spec fn page_result(
    url: Seq<char>,
    reply: ReplyFields,
    accessed: Seq<char>,
    url_date: Seq<char>,
) -> Result<Seq<char>, Failure> {
    match reply {
        ReplyFields::Failed(reason) => Err(Failure::Transport(reason)),
        ReplyFields::Answer { status, status_text, body } => if !status_is_success(status) {
            Err(Failure::Extraction("URL returned status "@ + status_text))
        } else {
            match url_host(url) {
                Err(error) => Err(Failure::MalformedUrl(parse_error_text(error))),
                Ok(host) => {
                    let fields = page_fields(html_document(body));
                    if fields.title.len() == 0 {
                        Err(Failure::Extraction("Could not find a title for the page."@))
                    } else {
                        Ok(record_text(page_entry(url, fields, host, accessed, url_date)))
                    }
                },
            }
        },
    }
}

/// What follows a reply, where the dates that the clock gives are
/// `accessed` and `url_date`.
pub open spec fn next_step(
    pending: PendingFields,
    reply: ReplyFields,
    accessed: Seq<char>,
    url_date: Seq<char>,
) -> StepFields {
    match pending.stage {
        Stage::Registry => registry_step(pending.url, reply),
        Stage::Page => StepFields::Done(page_result(pending.url, reply, accessed, url_date)),
    }
}

/// The registry's entry is returned as it is: for a DOI link whose registry
/// answers with a status of success and a body that starts with `@`, the
/// outcome is that body, unchanged.
pub proof fn lemma_registry_entry_verbatim(
    url: Seq<char>,
    status: u16,
    status_text: Seq<char>,
    body: Seq<char>,
    accessed: Seq<char>,
    url_date: Seq<char>,
)
    requires
        doi_suffix(url) is Some,
        status_is_success(status),
        body.len() > 0,
        body[0] == '@',
    ensures
        first_pending(url).stage == Stage::Registry,
        next_step(
            first_pending(url),
            ReplyFields::Answer { status, status_text, body },
            accessed,
            url_date,
        ) == StepFields::Done(Ok(body)),
{
    assert(!crate::text::is_whitespace('@'));
}

/// A URL that is no DOI link goes straight to its page.
pub proof fn lemma_other_urls_start_at_the_page(url: Seq<char>)
    requires
        doi_suffix(url) is None,
    ensures
        first_pending(url) == page_stage(url),
{
}

/// A lookup that fails does not end the work: after any reply of the
/// registry that is not accepted, a failed request among them, the page is
/// fetched.
pub proof fn lemma_failed_lookup_falls_through(
    url: Seq<char>,
    reply: ReplyFields,
    accessed: Seq<char>,
    url_date: Seq<char>,
)
    requires
        doi_suffix(url) is Some,
        !registry_accepts(reply),
    ensures
        next_step(first_pending(url), reply, accessed, url_date) == StepFields::Fetch(
            page_stage(url),
        ),
{
}

/// Scraping reads structured data before meta tags: where the page holds an
/// accepted article, the entry is made of the article's fields, whatever the
/// meta tags of the page say.
pub proof fn lemma_entry_prefers_structured_data(
    url: Seq<char>,
    status: u16,
    status_text: Seq<char>,
    body: Seq<char>,
    accessed: Seq<char>,
    url_date: Seq<char>,
)
    requires
        status_is_success(status),
        url_host(url) is Ok,
        schema_fields(html_document(body)) is Some,
    ensures
        page_result(url, ReplyFields::Answer { status, status_text, body }, accessed, url_date)
            == Ok::<Seq<char>, Failure>(
            record_text(
                page_entry(
                    url,
                    schema_fields(html_document(body))->0,
                    url_host(url)->Ok_0,
                    accessed,
                    url_date,
                ),
            ),
        ),
{
    lemma_schema_title_nonempty(html_document(body));
}

/// Without an accepted article the entry is made of what the meta tags give,
/// and a page whose meta tags give no title has no entry.
pub proof fn lemma_entry_falls_back_to_meta_tags(
    url: Seq<char>,
    status: u16,
    status_text: Seq<char>,
    body: Seq<char>,
    accessed: Seq<char>,
    url_date: Seq<char>,
)
    requires
        status_is_success(status),
        url_host(url) is Ok,
        schema_fields(html_document(body)) is None,
    ensures
        page_result(url, ReplyFields::Answer { status, status_text, body }, accessed, url_date)
            == if resolved(meta_tags_of(html_document(body))).title.len() == 0 {
            Err::<Seq<char>, Failure>(
                Failure::Extraction("Could not find a title for the page."@),
            )
        } else {
            Ok::<Seq<char>, Failure>(
                record_text(
                    page_entry(
                        url,
                        resolved(meta_tags_of(html_document(body))),
                        url_host(url)->Ok_0,
                        accessed,
                        url_date,
                    ),
                ),
            )
        },
{
}

/// The request for the page itself.
fn page_pending(url: String) -> (pending: Pending)
    ensures
        pending@ == page_stage(url@),
{
    let target = url.clone();
    Pending { url, stage: Stage::Page, request: Request { url: target, accept: None } }
}

/// Says which request to make first for `url`: that to the registry for a
/// DOI link, that for the page for any other URL.
pub fn start(url: &str) -> (pending: Pending)
    ensures
        pending@ == first_pending(url@),
{
    match match_doi(url) {
        Some(suffix) => Pending {
            url: url.to_owned(),
            stage: Stage::Registry,
            request: Request {
                url: lookup_url(suffix.as_str()),
                accept: Some("application/x-bibtex; charset=utf-8".to_owned()),
            },
        },
        None => page_pending(url.to_owned()),
    }
}

/// Judges the registry's reply: its body is the entry where it is accepted,
/// else the page is fetched next.
pub fn after_registry(url: String, reply: Reply) -> (step: Step)
    ensures
        step@ == registry_step(url@, reply@),
{
    match reply {
        Reply::Answer { status, status_text, body } => {
            if accepts_registry_reply(status, body.as_str()) {
                Step::Done(Ok(body))
            } else {
                Step::Fetch(page_pending(url))
            }
        },
        Reply::Failed(_) => Step::Fetch(page_pending(url)),
    }
}

/// Makes the outcome from the page's reply and the two dates to print:
/// `accessed` for the note, `url_date` for the urldate.
pub fn page_outcome(url: &str, reply: &Reply, accessed: &str, url_date: &str) -> (outcome: Result<
    String,
    BibtexError,
>)
    ensures
        outcome_of(outcome) == page_result(url@, reply@, accessed@, url_date@),
{
    match reply {
        Reply::Failed(reason) => Err(BibtexError::Transport(reason.clone())),
        Reply::Answer { status, status_text, body } => {
            if !is_success(*status) {
                let mut detail = "URL returned status ".to_owned();
                detail.append(status_text.as_str());
                return Err(BibtexError::Extraction(detail));
            }
            let document = parse_html(body.as_str());
            let host = match parse_host(url) {
                Ok(host) => host,
                Err(error) => {
                    return Err(BibtexError::MalformedUrl(describe_parse_error(&error)));
                },
            };
            let fields = extract_metadata(&document);
            if fields.title.as_str().is_empty() {
                return Err(
                    BibtexError::Extraction("Could not find a title for the page.".to_owned()),
                );
            }
            let key = generate_citation_key(
                fields.author.as_str(),
                fields.year.as_str(),
                fields.title.as_str(),
            );
            let publisher = match host {
                Some(name) => name,
                None => String::new(),
            };
            let entry = Entry {
                key: key.as_str(),
                title: fields.title.as_str(),
                author: fields.author.as_str(),
                url,
                accessed,
                year: fields.year.as_str(),
                url_date,
                publisher: publisher.as_str(),
            };
            Ok(assemble_record(&entry))
        },
    }
}

/// Takes the reply to the request in flight and says what comes next.
///
/// At the registry's stage the step follows from the reply alone. At the
/// page's stage the entry holds today's date, which the clock is asked for
/// twice: the step is the one that follows for the two dates it gave, each
/// printed as year, month and day.
pub fn advance(pending: Pending, reply: Reply) -> (step: Step)
    ensures
        pending.stage == Stage::Registry ==> step@ == registry_step(pending.url@, reply@),
        pending.stage == Stage::Page ==> exists|accessed: Seq<char>, url_date: Seq<char>|
            is_date_text(accessed) && is_date_text(url_date) && step@ == StepFields::Done(
                #[trigger] page_result(pending.url@, reply@, accessed, url_date),
            ),
        exists|accessed: Seq<char>, url_date: Seq<char>| #[trigger]
            next_step(pending@, reply@, accessed, url_date) == step@,
{
    match pending.stage {
        Stage::Registry => {
            let step = after_registry(pending.url, reply);
            assert(next_step(pending@, reply@, Seq::empty(), Seq::empty()) == step@);
            step
        },
        Stage::Page => {
            let accessed = local_date();
            let url_date = local_date();
            let outcome = page_outcome(
                pending.url.as_str(),
                &reply,
                accessed.as_str(),
                url_date.as_str(),
            );
            let step = Step::Done(outcome);
            assert(step@ == StepFields::Done(
                page_result(pending.url@, reply@, accessed@, url_date@),
            ));
            assert(next_step(pending@, reply@, accessed@, url_date@) == step@);
            step
        },
    }
}

} // verus!

//! The ways in which a request for a citation fails.

use vstd::prelude::*;

verus! {

/// A failure, as characters.
pub enum Failure {
    Transport(Seq<char>),
    MalformedUrl(Seq<char>),
    Extraction(Seq<char>),
}

/// Why no citation could be made. Each kind carries a detail message.
#[derive(Debug, PartialEq, Eq)]
pub enum BibtexError {
    /// A request failed below HTTP: the target could not be reached.
    Transport(String),
    /// The input is no URL.
    MalformedUrl(String),
    /// Nothing could be extracted: the page answered with a status that is
    /// no success, or it has no title.
    Extraction(String),
}

impl View for BibtexError {
    type V = Failure;

    open spec fn view(&self) -> Failure {
        match self {
            BibtexError::Transport(detail) => Failure::Transport(detail@),
            BibtexError::MalformedUrl(detail) => Failure::MalformedUrl(detail@),
            BibtexError::Extraction(detail) => Failure::Extraction(detail@),
        }
    }
}

/// The HTTP status under which a failure is reported: 500 where the target
/// could not be reached, 400 for a malformed URL, 404 where nothing could be
/// extracted.
pub open spec fn failure_status(failure: Failure) -> u16 {
    match failure {
        Failure::Transport(_) => 500,
        Failure::MalformedUrl(_) => 400,
        Failure::Extraction(_) => 404,
    }
}

/// The sentence under which a failure is reported: what went wrong, then
/// the detail.
pub open spec fn failure_message(failure: Failure) -> Seq<char> {
    match failure {
        Failure::Transport(detail) => "Failed to fetch the URL: "@ + detail,
        Failure::MalformedUrl(detail) => "Invalid URL provided: "@ + detail,
        Failure::Extraction(detail) => "Could not extract BibTeX data: "@ + detail,
    }
}

/// The three kinds are told apart by their status.
pub proof fn lemma_status_tells_kinds_apart(first: Failure, second: Failure)
    requires
        failure_status(first) == failure_status(second),
    ensures
        first is Transport <==> second is Transport,
        first is MalformedUrl <==> second is MalformedUrl,
        first is Extraction <==> second is Extraction,
{
}

impl BibtexError {
    /// The detail message of the failure.
    pub fn detail(&self) -> (detail: &str)
        ensures
            detail@ == match self@ {
                Failure::Transport(text) => text,
                Failure::MalformedUrl(text) => text,
                Failure::Extraction(text) => text,
            },
    {
        match self {
            BibtexError::Transport(detail) => detail.as_str(),
            BibtexError::MalformedUrl(detail) => detail.as_str(),
            BibtexError::Extraction(detail) => detail.as_str(),
        }
    }

    /// The HTTP status under which the failure is reported.
    pub fn status_code(&self) -> (status: u16)
        ensures
            status == failure_status(self@),
    {
        match self {
            BibtexError::Transport(_) => 500,
            BibtexError::MalformedUrl(_) => 400,
            BibtexError::Extraction(_) => 404,
        }
    }

    /// The sentence under which the failure is reported.
    pub fn message(&self) -> (message: String)
        ensures
            message@ == failure_message(self@),
    {
        let mut message = match self {
            BibtexError::Transport(_) => "Failed to fetch the URL: ".to_owned(),
            BibtexError::MalformedUrl(_) => "Invalid URL provided: ".to_owned(),
            BibtexError::Extraction(_) => "Could not extract BibTeX data: ".to_owned(),
        };
        message.append(self.detail());
        message
    }
}

} // verus!

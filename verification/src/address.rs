//! The host of a URL, as the `url` crate reads it.

use crate::article::text_of;
use vstd::prelude::*;

verus! {

/// `url::ParseError`: why a text is no URL. Nothing inside it is visible
/// here.
#[verifier::external_type_specification]
#[verifier::external_body]
pub struct ExParseError(url::ParseError);

/// What `url::Url::parse` makes of `text`: the host of the URL as
/// `url::Url::host_str` gives it, `None` for a URL without a host, or the
/// error that it reports.
pub uninterp spec fn url_host(text: Seq<char>) -> Result<Option<Seq<char>>, url::ParseError>;

/// The sentence that the `Display` impl of `url::ParseError` writes.
pub uninterp spec fn parse_error_text(error: url::ParseError) -> Seq<char>;

/// A host that may be missing, or the error, with the host as characters.
pub open spec fn host_of(parsed: Result<Option<String>, url::ParseError>) -> Result<
    Option<Seq<char>>,
    url::ParseError,
> {
    match parsed {
        Ok(host) => Ok(text_of(host)),
        Err(error) => Err(error),
    }
}

/// Calls `url::Url::parse` and, on the URL that it returns,
/// `url::Url::host_str`. The error of the first is handed on as it is.
#[verifier::external_body]
pub(crate) fn parse_host(text: &str) -> (parsed: Result<Option<String>, url::ParseError>)
    ensures
        host_of(parsed) == url_host(text@),
{
    match url::Url::parse(text) {
        Ok(parsed) => Ok(parsed.host_str().map(String::from)),
        Err(error) => Err(error),
    }
}

/// Writes a `url::ParseError` out through its `Display` impl.
#[verifier::external_body]
pub(crate) fn describe_parse_error(error: &url::ParseError) -> (text: String)
    ensures
        text@ == parse_error_text(*error),
{
    error.to_string()
}

} // verus!

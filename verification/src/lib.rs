//! Best-effort BibTeX citations for web pages.
//!
//! A citation is made by a cascade of strategies, the most reliable first:
//! a DOI link is looked up at the registry, which answers with an entry of
//! its own; any other page is fetched and read, its structured data first
//! and its meta tags as the fallback; the fields that were found are written
//! out as a `@misc` entry under a key made from author, year and title.
//!
//! The library makes no request itself. [`pipeline`] says which request to
//! make and takes the reply; the caller does the fetching.
//!
//! - [`text`]: whitespace, tokens and the other rules on characters
//! - [`doi`]: recognising a DOI link, judging the registry's reply
//! - [`json`], [`article`]: a block of structured data and the article in it
//! - [`html`], [`metadata`]: values picked from a page, and its fields
//! - [`key`], [`record`]: the citation key and the text of the entry
//! - [`address`], [`clock`]: the host of a URL, today's date
//! - [`error`]: the ways in which a request for a citation fails

pub mod address;
pub mod article;
pub mod clock;
pub mod doi;
pub mod error;
pub mod html;
pub mod json;
pub mod key;
pub mod metadata;
pub mod pipeline;
pub mod record;
pub mod text;

//! Response code generation for API operations.
//!
//! An operation is described by an ordered list of response variants. From that
//! one list the crate writes three pieces of Rust source text that have to agree
//! with each other: a `Response` enumeration, a match that resolves the HTTP
//! status of a response, and a match that resolves its content type.
//!
//! The crate does not read API documents. Its caller parses one and hands over
//! what was found in it, as an [`ApiInfo`], or that nothing was found.

pub mod case;
pub mod laws;
pub mod literal;
pub mod path;
pub mod printer;
pub mod status;

use crate::path::text_of;
use crate::printer::{GeneratedModule, GeneratedModuleView};
use vstd::prelude::*;
use vstd::string::*;

verus! {

/// Why no source text could be written.
#[derive(Debug, PartialEq, Eq, Structural)]
pub enum Error {
    /// The source is no OpenAPI document.
    InvalidSource,
}

impl Error {
    /// The message of the error.
    pub open spec fn message(self) -> Seq<char> {
        match self {
            Error::InvalidSource => "OpenAPI structure cannot be parsed"@,
        }
    }

    /// Writes the message of the error.
    pub fn to_string(&self) -> (message: String)
        ensures
            message@ == self.message(),
    {
        match self {
            Error::InvalidSource => String::from_str("OpenAPI structure cannot be parsed"),
        }
    }
}

/// What the library takes from a parsed OpenAPI document.
pub struct ApiInfo {
    /// The title of the API.
    pub title: String,
    /// The description of the API, if the document has one.
    pub description: Option<String>,
}

impl View for ApiInfo {
    type V = (Seq<char>, Option<Seq<char>>);

    /// The title and the description, as sequences of characters.
    open spec fn view(&self) -> (Seq<char>, Option<Seq<char>>) {
        (self.title@, text_of(self.description))
    }
}

/// The document written for an API of which the title and the description are
/// known: its documentation, and no operation.
pub open spec fn api_text(info: (Seq<char>, Option<Seq<char>>)) -> Seq<char> {
    (GeneratedModuleView { name: Some(info.0), description: info.1, paths: Seq::empty() }).text()
}

/// Writes the document for an API of which the title and the description are
/// known.
pub fn print_api(info: ApiInfo) -> (text: String)
    ensures
        text@ == api_text(info@),
{
    let mut generated = GeneratedModule::default();
    generated.set_name(info.title);
    if let Some(description) = info.description {
        generated.set_description(description);
    }
    generated.print()
}

/// Writes the source text for a source that was parsed as an OpenAPI document.
/// `parsed` is what the parser found, or `None` where it found no document:
/// that is reported as [`Error::InvalidSource`].
pub fn to_string(parsed: Option<ApiInfo>) -> (text: Result<String, Error>)
    ensures
        match parsed {
            Some(info) => text matches Ok(written) && written@ == api_text(info@),
            None => text matches Err(e) && e == Error::InvalidSource,
        },
{
    match parsed {
        Some(info) => Ok(print_api(info)),
        None => Err(Error::InvalidSource),
    }
}

} // verus!

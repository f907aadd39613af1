//! The errors that the gateway and the commands report, and their text.

use vstd::prelude::*;
use vstd::string::*;
use crate::text::{decimal, decimal_of};

verus! {

/// Failures of a gateway call or of a command built on it.
#[derive(Debug)]
pub enum NotionError {
    /// No API token is configured.
    MissingToken,
    /// The token cannot stand in an `Authorization` header.
    InvalidToken,
    /// The HTTP client could not be set up.
    ClientBuild,
    /// The platform has no configuration directory.
    NoConfigDir,
    /// The request did not reach the server or its answer was lost.
    Network { method: String, path: String },
    /// The server answered with a status outside 2xx.
    Api { status: u16, code: String, message: String },
    /// The response body is not JSON.
    ResponseParse,
    /// A local file could not be read.
    FileRead { path: String },
    /// A JSON argument given on the command line does not parse.
    InvalidJson { what: String },
    /// A move target is neither a page, a database nor the workspace.
    InvalidParentType { given: String },
    /// A file name could not be taken from a path.
    NoFileName,
    /// The upload session that was created carries no identifier.
    MissingUploadId,
}

/// The code reported when an error body has none.
pub open spec fn default_code() -> Seq<char> {
    "unknown"@
}

/// The message reported when an error body has none.
pub open spec fn default_message() -> Seq<char> {
    "Unknown error"@
}

/// The error for a non-2xx answer whose body carried `code` and `message`,
/// each when present as a string.
pub open spec fn api_error_of(status: u16, code: Option<Seq<char>>, message: Option<Seq<char>>) -> (
    u16,
    Seq<char>,
    Seq<char>,
) {
    (
        status,
        match code {
            Some(c) => c,
            None => default_code(),
        },
        match message {
            Some(m) => m,
            None => default_message(),
        },
    )
}

/// Builds the error for a non-2xx answer, with "unknown" and "Unknown error"
/// standing in for an absent code or message.
pub fn api_error(status: u16, code: Option<String>, message: Option<String>) -> (r: NotionError)
    ensures
        r matches NotionError::Api { status: s, code: c, message: m } && (s, c@, m@)
            == api_error_of(
            status,
            match code {
                Some(c) => Some(c@),
                None => None,
            },
            match message {
                Some(m) => Some(m@),
                None => None,
            },
        ),
{
    let code = match code {
        Some(c) => c,
        None => String::from_str("unknown"),
    };
    let message = match message {
        Some(m) => m,
        None => String::from_str("Unknown error"),
    };
    NotionError::Api { status, code, message }
}

/// What `http::StatusCode::canonical_reason` gives for a status number.
pub uninterp spec fn reason_phrase_of(status: u16) -> Option<Seq<char>>;

/// Relies on reqwest's `StatusCode::from_u16` and `StatusCode::canonical_reason`:
/// the reason phrase registered for a status number in 100..=999, if any.
#[verifier::external_body]
fn reason_phrase(status: u16) -> (r: Option<&'static str>)
    requires
        100 <= status <= 999,
    ensures
        match r {
            Some(p) => reason_phrase_of(status) == Some(p@),
            None => reason_phrase_of(status) is None,
        },
{
    match reqwest::StatusCode::from_u16(status) {
        Ok(s) => s.canonical_reason(),
        Err(_) => None,
    }
}

/// A status as HTTP prints it: its number and its reason phrase.
pub open spec fn status_text_of(status: u16) -> Seq<char> {
    decimal_of(status as nat) + " "@ + if 100 <= status <= 999 && reason_phrase_of(status) is Some {
        reason_phrase_of(status)->0
    } else {
        "<unknown status code>"@
    }
}

/// The text of an API error.
pub open spec fn api_error_text(status: u16, code: Seq<char>, message: Seq<char>) -> Seq<char> {
    "Notion API error ("@ + status_text_of(status) + "): ["@ + code + "] "@ + message
}

/// Renders a status as HTTP prints it, such as `404 Not Found`.
pub fn status_text(status: u16) -> (r: String)
    ensures
        r@ == status_text_of(status),
{
    let mut s = decimal(status as u64);
    s.append(" ");
    let reason = if 100 <= status && status <= 999 {
        reason_phrase(status)
    } else {
        None
    };
    match reason {
        Some(p) => s.append(p),
        None => s.append("<unknown status code>"),
    }
    s
}

impl NotionError {
    /// The error's text.
    pub open spec fn text(&self) -> Seq<char> {
        match self {
            NotionError::MissingToken => "No API token configured. Run `notion init` or set NOTION_API_TOKEN environment variable."@,
            NotionError::InvalidToken => "Invalid API token format"@,
            NotionError::ClientBuild => "Failed to build HTTP client"@,
            NotionError::NoConfigDir => "Could not determine config directory"@,
            NotionError::Network { method, path } => method@ + " "@ + path@,
            NotionError::Api { status, code, message } => api_error_text(*status, code@, message@),
            NotionError::ResponseParse => "Failed to parse response as JSON"@,
            NotionError::FileRead { path } => "Failed to read file: "@ + path@,
            NotionError::InvalidJson { what } => "Invalid JSON for "@ + what@,
            NotionError::InvalidParentType { given } => "Invalid parent type: "@ + given@
                + ". Use 'page', 'database', or 'workspace'"@,
            NotionError::NoFileName => "Could not determine filename"@,
            NotionError::MissingUploadId => "Missing upload ID in create response"@,
        }
    }

    /// The error's text, as shown to the user.
    pub fn message(&self) -> (r: String)
        ensures
            r@ == self.text(),
    {
        match self {
            NotionError::MissingToken => String::from_str(
                "No API token configured. Run `notion init` or set NOTION_API_TOKEN environment variable.",
            ),
            NotionError::InvalidToken => String::from_str("Invalid API token format"),
            NotionError::ClientBuild => String::from_str("Failed to build HTTP client"),
            NotionError::NoConfigDir => String::from_str("Could not determine config directory"),
            NotionError::Network { method, path } => {
                let mut s = method.clone();
                s.append(" ");
                s.append(path.as_str());
                s
            },
            NotionError::Api { status, code, message } => {
                let mut s = String::from_str("Notion API error (");
                let st = status_text(*status);
                s.append(st.as_str());
                s.append("): [");
                s.append(code.as_str());
                s.append("] ");
                s.append(message.as_str());
                s
            },
            NotionError::ResponseParse => String::from_str("Failed to parse response as JSON"),
            NotionError::FileRead { path } => {
                let mut s = String::from_str("Failed to read file: ");
                s.append(path.as_str());
                s
            },
            NotionError::InvalidJson { what } => {
                let mut s = String::from_str("Invalid JSON for ");
                s.append(what.as_str());
                s
            },
            NotionError::InvalidParentType { given } => {
                let mut s = String::from_str("Invalid parent type: ");
                s.append(given.as_str());
                s.append(". Use 'page', 'database', or 'workspace'");
                s
            },
            NotionError::NoFileName => String::from_str("Could not determine filename"),
            NotionError::MissingUploadId => String::from_str("Missing upload ID in create response"),
        }
    }
}

} // verus!

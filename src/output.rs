//! How results are printed: the output formats and their names.

use vstd::prelude::*;
use vstd::string::*;
use crate::text::{lower_of, lowercase, str_eq};

verus! {

/// How a JSON result is printed.
#[derive(Clone, Copy, Debug, PartialEq, Eq, Structural)]
pub enum OutputFormat {
    /// Indented JSON.
    Pretty,
    /// Indented JSON.
    Json,
    /// JSON on one line.
    Raw,
}

impl Default for OutputFormat {
    fn default() -> (r: OutputFormat)
        ensures
            r == OutputFormat::Pretty,
    {
        OutputFormat::Pretty
    }
}

/// The format with a lower-case name.
pub open spec fn format_named(name: Seq<char>) -> Option<OutputFormat> {
    if name == "pretty"@ {
        Some(OutputFormat::Pretty)
    } else if name == "json"@ {
        Some(OutputFormat::Json)
    } else if name == "raw"@ {
        Some(OutputFormat::Raw)
    } else {
        None
    }
}

impl OutputFormat {
    /// Reads a format name, in any case; an unknown name gives an error that
    /// repeats it.
    pub fn parse(s: &str) -> (r: Result<OutputFormat, String>)
        ensures
            format_named(lower_of(s@)) matches Some(f) ==> r == Ok::<OutputFormat, String>(f),
            format_named(lower_of(s@)) is None ==> (r matches Err(m) && m@ == "Unknown output format: "@
                + s@),
    {
        let lower = lowercase(s);
        let name = lower.as_str();
        if str_eq(name, "pretty") {
            Ok(OutputFormat::Pretty)
        } else if str_eq(name, "json") {
            Ok(OutputFormat::Json)
        } else if str_eq(name, "raw") {
            Ok(OutputFormat::Raw)
        } else {
            Err(String::from_str("Unknown output format: ").concat(s))
        }
    }

    /// Whether results are printed on one line.
    pub fn is_compact(&self) -> (r: bool)
        ensures
            r == (*self == OutputFormat::Raw),
    {
        match self {
            OutputFormat::Raw => true,
            _ => false,
        }
    }
}

impl std::str::FromStr for OutputFormat {
    type Err = String;

    fn from_str(s: &str) -> Result<OutputFormat, String> {
        OutputFormat::parse(s)
    }
}

} // verus!

//! The failures that generation reports.

use vstd::prelude::*;
use vstd::string::*;

verus! {

/// A failure, with the message that says what went wrong.
#[derive(Debug, Clone, PartialEq, Eq)]
pub enum GlossError {
    /// A source file could not be parsed.
    ParseError(String),
    /// A file could not be read.
    IoError(String),
    /// A configuration document is malformed.
    ConfigError(String),
    /// The Gleam compiler refused the project.
    GleamError(String),
    /// Code could not be generated; the message names the type or field
    /// and, where there is one, the remedy.
    GenerationError(String),
}

/// The text that an error shows to the user.
pub open spec fn error_text(e: GlossError) -> Seq<char> {
    match e {
        GlossError::ParseError(m) => "Failed to parse Gleam file: "@ + m@,
        GlossError::IoError(m) => "Failed to read file: "@ + m@,
        GlossError::ConfigError(m) => "Configuration error: "@ + m@,
        GlossError::GleamError(m) => "Gleam compilation error: "@ + m@,
        GlossError::GenerationError(m) => "Generation error: "@ + m@,
    }
}

/// The message that a generation error carries.
pub open spec fn generation_message<T>(r: Result<T, GlossError>) -> Option<Seq<char>> {
    match r {
        Err(GlossError::GenerationError(m)) => Some(m@),
        _ => None,
    }
}

impl GlossError {
    /// The text that the error shows to the user.
    pub fn message(&self) -> (r: String)
        ensures
            r@ == error_text(*self),
    {
        let (prefix, detail) = match self {
            GlossError::ParseError(m) => ("Failed to parse Gleam file: ", m),
            GlossError::IoError(m) => ("Failed to read file: ", m),
            GlossError::ConfigError(m) => ("Configuration error: ", m),
            GlossError::GleamError(m) => ("Gleam compilation error: ", m),
            GlossError::GenerationError(m) => ("Generation error: ", m),
        };
        let mut out = String::from_str(prefix);
        out.append(detail.as_str());
        out
    }
}

} // verus!

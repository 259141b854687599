//! The one error that the builder reports.

use crate::engine::{diagnostic, diagnostic_text};
use vstd::prelude::*;

verus! {

/// Why a built pattern could not be turned into a matcher.
#[derive(Debug)]
pub enum VerexError {
    /// The regex engine refused the pattern. The text is the engine's own
    /// message.
    InvalidPattern(String),
}

impl VerexError {
    /// The engine's message.
    pub open spec fn details(self) -> Seq<char> {
        match self {
            VerexError::InvalidPattern(details) => details@,
        }
    }

    /// The error that stands for the engine's refusal `error`: it carries
    /// the engine's message as it is.
    pub fn from_engine(error: &regex::Error) -> (reported: VerexError)
        ensures
            reported.details() == diagnostic_text(*error),
    {
        VerexError::InvalidPattern(diagnostic(error))
    }

    /// The engine's message.
    pub fn message(&self) -> (text: &str)
        ensures
            text@ == self.details(),
    {
        match self {
            VerexError::InvalidPattern(details) => details.as_str(),
        }
    }
}

impl Clone for VerexError {
    fn clone(&self) -> (copy: VerexError)
        ensures
            copy == *self,
    {
        match self {
            VerexError::InvalidPattern(details) => VerexError::InvalidPattern(details.clone()),
        }
    }
}

} // verus!

//! The error that every drawing operation can return.

use vstd::prelude::*;
use vstd::string::StringExecFns;

verus! {

/// Why a drawing operation failed.
#[derive(Debug)]
pub enum LignumError {
    /// The backend refused or failed; the text says how.
    Backend(String),
    /// Anything else; the text says what.
    Other(String),
}

impl LignumError {
    /// What is said of every error of this variant.
    pub open spec fn spec_summary(self) -> Seq<char> {
        match self {
            LignumError::Backend(_) => "Lignum encountered a backend error"@,
            LignumError::Other(_) => "Lignum encountered an error"@,
        }
    }

    /// The text that the error carries.
    pub open spec fn spec_detail(self) -> Seq<char> {
        match self {
            LignumError::Backend(text) => text@,
            LignumError::Other(text) => text@,
        }
    }

    /// Whether this is an error of the variant `Other` that carries `text`.
    pub open spec fn is_other(self, text: Seq<char>) -> bool {
        self matches LignumError::Other(detail) && detail@ == text
    }

    /// Whether this is an error of the variant `Backend` that carries `text`.
    pub open spec fn is_backend(self, text: Seq<char>) -> bool {
        self matches LignumError::Backend(detail) && detail@ == text
    }

    /// A one-line description of the error's kind.
    pub fn summary(&self) -> (text: String)
        ensures
            text@ == self.spec_summary(),
    {
        match self {
            LignumError::Backend(_) => String::from_str("Lignum encountered a backend error"),
            LignumError::Other(_) => String::from_str("Lignum encountered an error"),
        }
    }

    /// The text that the error carries.
    pub fn detail(&self) -> (text: &str)
        ensures
            text@ == self.spec_detail(),
    {
        match self {
            LignumError::Backend(text) => text.as_str(),
            LignumError::Other(text) => text.as_str(),
        }
    }
}

} // verus!

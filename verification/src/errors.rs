//! Failures of the domain layer, and the line of text each one is shown as.

use vstd::prelude::*;
use crate::text::joined;

verus! {

/// A failure reported by a domain operation. Each variant carries the detail
/// that the reporting side supplied.
#[derive(Debug, Clone)]
pub enum DomainError {
    NotFound(String),
    Unauthorized(String),
    InvalidInput(String),
    ExternalService(String),
    Internal(String),
}

/// Mathematical content of a [`DomainError`]: its kind and its detail.
pub ghost enum Failure {
    NotFound(Seq<char>),
    Unauthorized(Seq<char>),
    InvalidInput(Seq<char>),
    ExternalService(Seq<char>),
    Internal(Seq<char>),
}

impl View for DomainError {
    type V = Failure;

    open spec fn view(&self) -> Failure {
        match self {
            DomainError::NotFound(detail) => Failure::NotFound(detail@),
            DomainError::Unauthorized(detail) => Failure::Unauthorized(detail@),
            DomainError::InvalidInput(detail) => Failure::InvalidInput(detail@),
            DomainError::ExternalService(detail) => Failure::ExternalService(detail@),
            DomainError::Internal(detail) => Failure::Internal(detail@),
        }
    }
}

impl Failure {
    /// The failure as one line of text: words that name its kind, then its
    /// detail.
    pub open spec fn text(self) -> Seq<char> {
        match self {
            Failure::NotFound(detail) => "Not found: "@ + detail,
            Failure::Unauthorized(detail) => "Unauthorized: "@ + detail,
            Failure::InvalidInput(detail) => "Invalid input: "@ + detail,
            Failure::ExternalService(detail) => "External service error: "@ + detail,
            Failure::Internal(detail) => "Internal error: "@ + detail,
        }
    }
}

impl DomainError {
    /// Renders the error as the line of text it is shown as.
    pub fn describe(&self) -> (line: String)
        ensures
            line@ == self@.text(),
    {
        match self {
            DomainError::NotFound(msg) => joined("Not found: ", msg.as_str()),
            DomainError::Unauthorized(msg) => joined("Unauthorized: ", msg.as_str()),
            DomainError::InvalidInput(msg) => joined("Invalid input: ", msg.as_str()),
            DomainError::ExternalService(msg) => joined("External service error: ", msg.as_str()),
            DomainError::Internal(msg) => joined("Internal error: ", msg.as_str()),
        }
    }
}

} // verus!

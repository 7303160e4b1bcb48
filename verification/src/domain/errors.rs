//! The errors of the business rules.

use vstd::prelude::*;
use vstd::string::*;
use crate::text::join;

verus! {

/// A business rule that was broken, or a check that failed.
#[derive(Debug, PartialEq)]
pub enum DomainError {
    NotFound(String),
    ValidationError(String),
    BusinessRuleViolation(String),
    RepositoryError(String),
    AccessDenied(String),
    InvalidStateTransition(String),
}

pub enum DomainErrorView {
    NotFound(Seq<char>),
    ValidationError(Seq<char>),
    BusinessRuleViolation(Seq<char>),
    RepositoryError(Seq<char>),
    AccessDenied(Seq<char>),
    InvalidStateTransition(Seq<char>),
}

impl DomainErrorView {
    /// The sentence that describes the error.
    pub open spec fn message(self) -> Seq<char> {
        match self {
            DomainErrorView::NotFound(s) => "Entity not found: "@ + s,
            DomainErrorView::ValidationError(s) => "Validation failed: "@ + s,
            DomainErrorView::BusinessRuleViolation(s) => "Business rule violation: "@ + s,
            DomainErrorView::RepositoryError(s) => "Repository error: "@ + s,
            DomainErrorView::AccessDenied(s) => "Access denied: "@ + s,
            DomainErrorView::InvalidStateTransition(s) => "Invalid state transition: "@ + s,
        }
    }
}

impl View for DomainError {
    type V = DomainErrorView;

    open spec fn view(&self) -> DomainErrorView {
        match self {
            DomainError::NotFound(s) => DomainErrorView::NotFound(s@),
            DomainError::ValidationError(s) => DomainErrorView::ValidationError(s@),
            DomainError::BusinessRuleViolation(s) => DomainErrorView::BusinessRuleViolation(s@),
            DomainError::RepositoryError(s) => DomainErrorView::RepositoryError(s@),
            DomainError::AccessDenied(s) => DomainErrorView::AccessDenied(s@),
            DomainError::InvalidStateTransition(s) => DomainErrorView::InvalidStateTransition(s@),
        }
    }
}

impl Clone for DomainError {
    fn clone(&self) -> (copy: Self)
        ensures
            copy@ == self@,
    {
        match self {
            DomainError::NotFound(s) => DomainError::NotFound(s.clone()),
            DomainError::ValidationError(s) => DomainError::ValidationError(s.clone()),
            DomainError::BusinessRuleViolation(s) => DomainError::BusinessRuleViolation(s.clone()),
            DomainError::RepositoryError(s) => DomainError::RepositoryError(s.clone()),
            DomainError::AccessDenied(s) => DomainError::AccessDenied(s.clone()),
            DomainError::InvalidStateTransition(s) => DomainError::InvalidStateTransition(s.clone()),
        }
    }
}

impl DomainError {
    /// The sentence that describes the error.
    pub fn to_string(&self) -> (text: String)
        ensures
            text@ == self@.message(),
    {
        match self {
            DomainError::NotFound(s) => join("Entity not found: ", s.as_str()),
            DomainError::ValidationError(s) => join("Validation failed: ", s.as_str()),
            DomainError::BusinessRuleViolation(s) => join("Business rule violation: ", s.as_str()),
            DomainError::RepositoryError(s) => join("Repository error: ", s.as_str()),
            DomainError::AccessDenied(s) => join("Access denied: ", s.as_str()),
            DomainError::InvalidStateTransition(s) => join("Invalid state transition: ", s.as_str()),
        }
    }
}

/// The result of an operation of the business rules.
pub type DomainResult<T> = Result<T, DomainError>;

} // verus!

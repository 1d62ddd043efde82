//! Failures the sink reports to the code that builds it or feeds it.

use vstd::prelude::*;

verus! {

/// What an error is, mathematically: its kind and the text of its reason.
pub enum ErrorView {
    ConfigError(Seq<char>),
    GeneralError(Seq<char>),
    DeliveryError(Seq<char>),
}

/// An error surfaced by the sink. Each variant carries a readable reason.
#[derive(Debug, PartialEq, Eq)]
pub enum CallystoError {
    /// The sink was asked to start with settings it cannot use.
    ConfigError(String),
    /// A collaborator failed in a way the sink has no better name for.
    GeneralError(String),
    /// A request could not be handed to the worker.
    DeliveryError(String),
}

impl View for CallystoError {
    type V = ErrorView;

    open spec fn view(&self) -> ErrorView {
        match self {
            CallystoError::ConfigError(reason) => ErrorView::ConfigError(reason@),
            CallystoError::GeneralError(reason) => ErrorView::GeneralError(reason@),
            CallystoError::DeliveryError(reason) => ErrorView::DeliveryError(reason@),
        }
    }
}

impl ErrorView {
    /// The reason the error carries, whatever its kind.
    pub open spec fn reason(self) -> Seq<char> {
        match self {
            ErrorView::ConfigError(reason) => reason,
            ErrorView::GeneralError(reason) => reason,
            ErrorView::DeliveryError(reason) => reason,
        }
    }
}

impl CallystoError {
    /// The reason the error carries, whatever its kind.
    pub fn reason(&self) -> (text: &str)
        ensures
            text@ == self@.reason(),
    {
        match self {
            CallystoError::ConfigError(reason) => reason.as_str(),
            CallystoError::GeneralError(reason) => reason.as_str(),
            CallystoError::DeliveryError(reason) => reason.as_str(),
        }
    }
}

} // verus!

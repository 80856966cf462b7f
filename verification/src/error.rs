//! The errors that the ledger's operations return.

use vstd::prelude::*;

use crate::ledger::Tokens;

verus! {

/// Why an operation of the ledger failed.
#[derive(Debug, Clone, PartialEq, Eq)]
pub enum Error {
    /// An external collaborator failed, or a stored record cannot be read;
    /// the text says which.
    Internal(String),
    AppNotFound,
    DeveloperAccountNotFound,
    DeveloperAccountAlreadyExist,
    MaxAppsCountReached,
    InsufficientBalanceForDeploy { was: Tokens, needed: Tokens },
}

/// An error as a mathematical value.
pub enum ErrorView {
    Internal(Seq<char>),
    AppNotFound,
    DeveloperAccountNotFound,
    DeveloperAccountAlreadyExist,
    MaxAppsCountReached,
    InsufficientBalanceForDeploy { was: Tokens, needed: Tokens },
}

impl View for Error {
    type V = ErrorView;

    open spec fn view(&self) -> ErrorView {
        match *self {
            Error::Internal(message) => ErrorView::Internal(message@),
            Error::AppNotFound => ErrorView::AppNotFound,
            Error::DeveloperAccountNotFound => ErrorView::DeveloperAccountNotFound,
            Error::DeveloperAccountAlreadyExist => ErrorView::DeveloperAccountAlreadyExist,
            Error::MaxAppsCountReached => ErrorView::MaxAppsCountReached,
            Error::InsufficientBalanceForDeploy { was, needed } => {
                ErrorView::InsufficientBalanceForDeploy { was, needed }
            },
        }
    }
}

impl DeepView for Error {
    type V = ErrorView;

    open spec fn deep_view(&self) -> ErrorView {
        self@
    }
}

/// A result as a mathematical value: the view of what it holds.
pub open spec fn result_view<T: DeepView, E: DeepView>(result: Result<T, E>) -> Result<T::V, E::V> {
    match result {
        Ok(value) => Ok(value.deep_view()),
        Err(error) => Err(error.deep_view()),
    }
}

} // verus!

//! The ways in which serving a request can fail.

use crate::config::ConfigKey;
use vstd::prelude::*;

verus! {

/// Why a request could not be served. Every failure of an outside
/// collaborator carries the cause that the collaborator reported.
#[derive(Debug, PartialEq, Eq)]
pub enum SessionError {
    /// A required setting is absent from the environment.
    Configuration(ConfigKey),
    /// The request to the provider could not be delivered or answered.
    Network(String),
    /// The provider answered with a body that is no session response.
    ResponseParse(String),
    /// The database could not be reached, or the table could not be set up.
    StoreInit(String),
    /// The row could not be inserted.
    StoreWrite(String),
    /// The newest row could not be queried.
    StoreRead(String),
    /// The query succeeded and found no launch URL.
    NoLaunchUrl,
}

/// The mathematical value of a `SessionError`.
pub enum SessionErrorView {
    Configuration(ConfigKey),
    Network(Seq<char>),
    ResponseParse(Seq<char>),
    StoreInit(Seq<char>),
    StoreWrite(Seq<char>),
    StoreRead(Seq<char>),
    NoLaunchUrl,
}

impl View for SessionError {
    type V = SessionErrorView;

    open spec fn view(&self) -> SessionErrorView {
        match *self {
            SessionError::Configuration(key) => SessionErrorView::Configuration(key),
            SessionError::Network(cause) => SessionErrorView::Network(cause@),
            SessionError::ResponseParse(cause) => SessionErrorView::ResponseParse(cause@),
            SessionError::StoreInit(cause) => SessionErrorView::StoreInit(cause@),
            SessionError::StoreWrite(cause) => SessionErrorView::StoreWrite(cause@),
            SessionError::StoreRead(cause) => SessionErrorView::StoreRead(cause@),
            SessionError::NoLaunchUrl => SessionErrorView::NoLaunchUrl,
        }
    }
}

/// The mathematical value of what an outside collaborator reported: what it
/// returned, or the cause of its failure.
pub open spec fn report<T: DeepView>(reported: Result<T, String>) -> Result<T::V, Seq<char>> {
    match reported {
        Ok(value) => Ok(value.deep_view()),
        Err(cause) => Err(cause@),
    }
}

/// The mathematical value of a result that may have failed with a
/// `SessionError`.
pub open spec fn outcome<T: View>(result: Result<T, SessionError>) -> Result<
    T::V,
    SessionErrorView,
> {
    match result {
        Ok(value) => Ok(value@),
        Err(error) => Err(error@),
    }
}

} // verus!

//! What the engine's operations report when they do not succeed.

use vstd::prelude::*;
use vstd::string::*;

verus! {

/// Why a request was not built, or why no message was selected.
#[derive(Clone, Debug, PartialEq, Eq)]
pub enum GetMessageError {
    /// An identifier that is no UUID.
    BadUuid(String),
    /// No such queue, or no message in it that the request selects.
    NoMessage(String),
    /// A field that the request needs and does not have.
    MissingParameter(String),
    /// A field that cannot be read, or that the action does not allow.
    InvalidParameter(String),
    /// An internal failure.
    Unknown(String),
}

/// A `GetMessageError` as a mathematical value.
pub enum GetMessageErrorView {
    BadUuid(Seq<char>),
    NoMessage(Seq<char>),
    MissingParameter(Seq<char>),
    InvalidParameter(Seq<char>),
    Unknown(Seq<char>),
}

impl View for GetMessageError {
    type V = GetMessageErrorView;

    open spec fn view(&self) -> GetMessageErrorView {
        match self {
            GetMessageError::BadUuid(t) => GetMessageErrorView::BadUuid(t@),
            GetMessageError::NoMessage(t) => GetMessageErrorView::NoMessage(t@),
            GetMessageError::MissingParameter(t) => GetMessageErrorView::MissingParameter(t@),
            GetMessageError::InvalidParameter(t) => GetMessageErrorView::InvalidParameter(t@),
            GetMessageError::Unknown(t) => GetMessageErrorView::Unknown(t@),
        }
    }
}

impl GetMessageErrorView {
    /// The text that describes the error: what it carries, or `Unknown`.
    pub open spec fn text(self) -> Seq<char> {
        match self {
            GetMessageErrorView::BadUuid(t) => t,
            GetMessageErrorView::NoMessage(t) => t,
            GetMessageErrorView::MissingParameter(t) => t,
            GetMessageErrorView::InvalidParameter(t) => t,
            GetMessageErrorView::Unknown(_) => "Unknown"@,
        }
    }
}

impl GetMessageError {
    /// The text that describes the error.
    pub fn to_string(&self) -> (r: String)
        ensures
            r@ == self@.text(),
    {
        match self {
            GetMessageError::BadUuid(t) => t.clone(),
            GetMessageError::NoMessage(t) => t.clone(),
            GetMessageError::MissingParameter(t) => t.clone(),
            GetMessageError::InvalidParameter(t) => t.clone(),
            GetMessageError::Unknown(_) => "Unknown".to_owned(),
        }
    }
}

/// Why a message was not created.
#[derive(Clone, Debug, PartialEq, Eq)]
pub enum CreateMessageError {
    /// A queue name that cannot be used.
    BadQueue(String),
    /// An internal failure.
    Unknown(String),
}

/// A `CreateMessageError` as a mathematical value.
pub enum CreateMessageErrorView {
    BadQueue(Seq<char>),
    Unknown(Seq<char>),
}

impl View for CreateMessageError {
    type V = CreateMessageErrorView;

    open spec fn view(&self) -> CreateMessageErrorView {
        match self {
            CreateMessageError::BadQueue(t) => CreateMessageErrorView::BadQueue(t@),
            CreateMessageError::Unknown(t) => CreateMessageErrorView::Unknown(t@),
        }
    }
}

impl CreateMessageError {
    /// The text that describes the error.
    pub fn to_string(&self) -> (r: String)
        ensures
            r@ == "Create message error"@,
    {
        "Create message error".to_owned()
    }
}

/// Why the queues could not be listed.
#[derive(Clone, Debug, PartialEq, Eq)]
pub enum QueueListError {
    /// An internal failure.
    Unknown(String),
}

/// A `QueueListError` as a mathematical value.
pub enum QueueListErrorView {
    Unknown(Seq<char>),
}

impl View for QueueListError {
    type V = QueueListErrorView;

    open spec fn view(&self) -> QueueListErrorView {
        match self {
            QueueListError::Unknown(t) => QueueListErrorView::Unknown(t@),
        }
    }
}

/// Why a queue was not summarised.
#[derive(Clone, Debug, PartialEq, Eq)]
pub enum QueueSummaryError {
    /// An internal failure.
    Unknown(String),
    /// The store has no queue of that name.
    NoQueue(String),
}

/// A `QueueSummaryError` as a mathematical value.
pub enum QueueSummaryErrorView {
    Unknown(Seq<char>),
    NoQueue(Seq<char>),
}

impl View for QueueSummaryError {
    type V = QueueSummaryErrorView;

    open spec fn view(&self) -> QueueSummaryErrorView {
        match self {
            QueueSummaryError::Unknown(t) => QueueSummaryErrorView::Unknown(t@),
            QueueSummaryError::NoQueue(t) => QueueSummaryErrorView::NoQueue(t@),
        }
    }
}

impl QueueSummaryError {
    /// The text that describes the error.
    pub fn to_string(&self) -> (r: String)
        ensures
            r@ == "QueueSummaryError"@,
    {
        "QueueSummaryError".to_owned()
    }
}

} // verus!

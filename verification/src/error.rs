//! The errors that the flows of this crate return.

use vstd::prelude::*;

verus! {

/// Why a request was refused or could not be carried out.
#[derive(Debug, Clone, PartialEq, Eq)]
pub enum Error {
    /// A required field of the request is missing.
    InvalidRequest(String),
    /// The email or the username is already taken.
    Conflict(String),
    /// The email or the username breaks a format rule of the storage layer.
    ValidationFailed(String),
    /// The requestor may not change this password.
    Unauthorized(String),
    /// No credential exists for the target email.
    NotFound(String),
    /// Storage or hashing failed unexpectedly; the text is diagnostic detail
    /// for operators and is not shown to the caller.
    InternalError(String),
}

/// An [`Error`] with its text as a sequence of characters.
pub enum ErrorView {
    InvalidRequest(Seq<char>),
    Conflict(Seq<char>),
    ValidationFailed(Seq<char>),
    Unauthorized(Seq<char>),
    NotFound(Seq<char>),
    InternalError(Seq<char>),
}

impl View for Error {
    type V = ErrorView;

    open spec fn view(&self) -> ErrorView {
        match *self {
            Error::InvalidRequest(m) => ErrorView::InvalidRequest(m@),
            Error::Conflict(m) => ErrorView::Conflict(m@),
            Error::ValidationFailed(m) => ErrorView::ValidationFailed(m@),
            Error::Unauthorized(m) => ErrorView::Unauthorized(m@),
            Error::NotFound(m) => ErrorView::NotFound(m@),
            Error::InternalError(m) => ErrorView::InternalError(m@),
        }
    }
}

impl ErrorView {
    /// The message that the caller is shown: the error's own text, except for
    /// an internal error, whose detail is replaced by a fixed sentence.
    pub open spec fn message(self) -> Seq<char> {
        match self {
            ErrorView::InvalidRequest(m) => m,
            ErrorView::Conflict(m) => m,
            ErrorView::ValidationFailed(m) => m,
            ErrorView::Unauthorized(m) => m,
            ErrorView::NotFound(m) => m,
            ErrorView::InternalError(_) => "Internal error"@,
        }
    }

    /// The detail kept for operators: present for an internal error only.
    pub open spec fn detail(self) -> Option<Seq<char>> {
        match self {
            ErrorView::InternalError(d) => Some(d),
            _ => None,
        }
    }
}

impl Error {
    /// The message for the caller.
    pub fn message(&self) -> (text: String)
        ensures
            text@ == self@.message(),
    {
        match self {
            Error::InvalidRequest(m) => m.clone(),
            Error::Conflict(m) => m.clone(),
            Error::ValidationFailed(m) => m.clone(),
            Error::Unauthorized(m) => m.clone(),
            Error::NotFound(m) => m.clone(),
            Error::InternalError(_) => "Internal error".to_owned(),
        }
    }

    /// The diagnostic detail of an internal error.
    pub fn detail(&self) -> (text: Option<String>)
        ensures
            crate::text::opt_chars(text) == self@.detail(),
    {
        match self {
            Error::InternalError(d) => Some(d.clone()),
            _ => None,
        }
    }
}

} // verus!

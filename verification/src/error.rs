//! What the session manager reports to its callers when an operation fails.

use vstd::prelude::*;
use vstd::string::StringExecFns;

verus! {

/// The text reported for a write while no port is stored.
pub const NOT_OPEN_MESSAGE: &'static str = "串口未打开";

/// A failure of one operation of the session manager. None of them ends the
/// session: each is scoped to the call that returned it.
#[derive(Clone, Debug, PartialEq, Eq)]
pub enum SessionError {
    /// The platform could not list its serial devices.
    Enumeration(String),
    /// The device could not be opened or configured as asked.
    Open(String),
    /// A write was attempted while no port was stored.
    NotOpen,
    /// The device failed while bytes were written or flushed.
    Write(String),
}

/// The mathematical content of a [`SessionError`].
pub enum SessionErrorView {
    Enumeration(Seq<char>),
    Open(Seq<char>),
    NotOpen,
    Write(Seq<char>),
}

impl View for SessionError {
    type V = SessionErrorView;

    open spec fn view(&self) -> SessionErrorView {
        match self {
            SessionError::Enumeration(text) => SessionErrorView::Enumeration(text@),
            SessionError::Open(text) => SessionErrorView::Open(text@),
            SessionError::NotOpen => SessionErrorView::NotOpen,
            SessionError::Write(text) => SessionErrorView::Write(text@),
        }
    }
}

impl SessionErrorView {
    /// The text that describes the failure to a user: the platform's or the
    /// device's own words where there are any.
    pub open spec fn message(self) -> Seq<char> {
        match self {
            SessionErrorView::Enumeration(text) => text,
            SessionErrorView::Open(text) => text,
            SessionErrorView::NotOpen => NOT_OPEN_MESSAGE@,
            SessionErrorView::Write(text) => text,
        }
    }
}

impl SessionError {
    /// The text that describes the failure to a user.
    pub fn message(&self) -> (text: String)
        ensures
            text@ == self@.message(),
    {
        match self {
            SessionError::Enumeration(text) => text.clone(),
            SessionError::Open(text) => text.clone(),
            SessionError::NotOpen => String::from_str(NOT_OPEN_MESSAGE),
            SessionError::Write(text) => text.clone(),
        }
    }
}

} // verus!

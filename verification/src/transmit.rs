//! The steps of one write: hand all the bytes to the device, force a flush,
//! report how it ended.
//!
//! The caller that owns the device performs each step and reports the
//! device's reply; the next step follows from the reply alone.

use vstd::prelude::*;
use crate::error::{SessionError, SessionErrorView};

verus! {

/// What a write is to do next.
#[derive(Debug, PartialEq, Eq)]
pub enum WriteStep {
    /// Hand all of these bytes to the device.
    Send(Vec<u8>),
    /// The device took the bytes: force out what it buffered.
    Flush,
    /// The write is over, with this result.
    Done(Result<(), SessionError>),
}

/// The mathematical content of a [`WriteStep`].
pub enum WriteStepView {
    Send(Seq<u8>),
    Flush,
    Done(Result<(), SessionErrorView>),
}

impl View for WriteStep {
    type V = WriteStepView;

    open spec fn view(&self) -> WriteStepView {
        match self {
            WriteStep::Send(bytes) => WriteStepView::Send(bytes@),
            WriteStep::Flush => WriteStepView::Flush,
            WriteStep::Done(Ok(_)) => WriteStepView::Done(Ok(())),
            WriteStep::Done(Err(error)) => WriteStepView::Done(Err(error@)),
        }
    }
}

/// The mathematical content of a device's reply to one step: success, or the
/// device's description of its failure.
pub open spec fn reply_view(reply: Result<(), String>) -> Result<(), Seq<char>> {
    match reply {
        Ok(_) => Ok(()),
        Err(text) => Err(text@),
    }
}

impl WriteStepView {
    /// The step that follows this one once the device has replied to it. A
    /// failure at either step ends the write with a write error that carries
    /// the device's words; a finished write stays finished.
    pub open spec fn after(self, reply: Result<(), Seq<char>>) -> WriteStepView {
        match self {
            WriteStepView::Send(_) => match reply {
                Ok(_) => WriteStepView::Flush,
                Err(text) => WriteStepView::Done(Err(SessionErrorView::Write(text))),
            },
            WriteStepView::Flush => match reply {
                Ok(_) => WriteStepView::Done(Ok(())),
                Err(text) => WriteStepView::Done(Err(SessionErrorView::Write(text))),
            },
            WriteStepView::Done(result) => WriteStepView::Done(result),
        }
    }
}

impl WriteStep {
    /// The step that follows this one once the device has replied to it.
    pub fn after(self, reply: Result<(), String>) -> (next: WriteStep)
        ensures
            next@ == self@.after(reply_view(reply)),
    {
        match self {
            WriteStep::Send(_) => match reply {
                Ok(_) => WriteStep::Flush,
                Err(text) => WriteStep::Done(Err(SessionError::Write(text))),
            },
            WriteStep::Flush => match reply {
                Ok(_) => WriteStep::Done(Ok(())),
                Err(text) => WriteStep::Done(Err(SessionError::Write(text))),
            },
            WriteStep::Done(result) => WriteStep::Done(result),
        }
    }

    /// Whether the write is over.
    pub fn is_done(&self) -> (done: bool)
        ensures
            done == (self@ is Done),
    {
        match self {
            WriteStep::Done(_) => true,
            _ => false,
        }
    }
}

/// A write of `data` to an open port asks for two things in turn, all of
/// `data` and then a flush, and ends well exactly when the device did both.
/// A failed send ends the write at once, without a flush, and either
/// failure ends it with a write error in the device's words: no write that
/// was cut short is reported as done.
pub proof fn lemma_write_is_whole_or_error(
    data: Seq<u8>,
    sent: Result<(), Seq<char>>,
    flushed: Result<(), Seq<char>>,
)
    ensures
        WriteStepView::Send(data).after(sent) is Flush <==> sent is Ok,
        sent matches Err(text) ==> WriteStepView::Send(data).after(sent) == WriteStepView::Done(
            Err(SessionErrorView::Write(text)),
        ),
        WriteStepView::Send(data).after(sent).after(flushed) is Done,
        WriteStepView::Send(data).after(sent).after(flushed) == WriteStepView::Done(Ok(())) <==> sent is Ok
            && flushed is Ok,
        sent is Ok ==> (flushed matches Err(text) ==> WriteStepView::Send(data).after(sent).after(flushed)
            == WriteStepView::Done(Err(SessionErrorView::Write(text)))),
{
}

} // verus!

//! The session manager: at most one open port handle, replaced by every
//! successful open and dropped by close.
//!
//! The manager is an ordinary owned value. A program that shares it between
//! threads keeps it behind one lock and calls every operation under that
//! lock, so that no write sees a handle half replaced.

use vstd::prelude::*;
use crate::error::{SessionError, SessionErrorView};
use crate::transmit::{WriteStep, WriteStepView};

verus! {

/// The state of the manager: the handle of the open port, if there is one.
/// `H` is whatever the program uses to reach an open device.
pub struct Session<H> {
    port: Option<H>,
}

impl<H> View for Session<H> {
    type V = Option<H>;

    closed spec fn view(&self) -> Option<H> {
        self.port
    }
}

/// The two handles of a freshly opened port. They reach the same device
/// and are independent of each other: what is done through one never waits
/// for the other.
pub struct OpenedPort<H> {
    /// The handle that the manager stores and that writes go through.
    pub writer: H,
    /// The duplicate that the background reader reads from.
    pub reader: H,
}

/// The handle stored after an attempt to open a port: the new writer where
/// the attempt succeeded, whatever was stored before where it failed.
pub open spec fn after_open<H>(stored: Option<H>, opened: Result<OpenedPort<H>, String>) -> Option<H> {
    match opened {
        Ok(port) => Some(port.writer),
        Err(_) => stored,
    }
}

/// The handle stored after a close: none.
pub open spec fn after_close<H>(stored: Option<H>) -> Option<H> {
    None
}

/// The first step of a write of `data`: with a port stored, all of `data`
/// is to be sent; with none, the write is over at once.
pub open spec fn first_step<H>(stored: Option<H>, data: Seq<u8>) -> WriteStepView {
    if stored is Some {
        WriteStepView::Send(data)
    } else {
        WriteStepView::Done(Err(SessionErrorView::NotOpen))
    }
}

/// The names of the serial devices that a probe of the platform found, in
/// the probe's order, or the probe's failure as an enumeration error.
pub fn list_ports(probe: Result<Vec<String>, String>) -> (listed: Result<Vec<String>, SessionError>)
    ensures
        probe matches Ok(names) ==> listed == Ok::<Vec<String>, SessionError>(names),
        probe matches Err(text) ==> listed matches Err(error) && error@ == SessionErrorView::Enumeration(text@),
{
    match probe {
        Ok(names) => Ok(names),
        Err(text) => Err(SessionError::Enumeration(text)),
    }
}

impl<H> Session<H> {
    /// A manager with no port stored.
    pub fn new() -> (session: Self)
        ensures
            session@ is None,
    {
        Session { port: None }
    }

    /// Whether a port is stored.
    pub fn is_open(&self) -> (open: bool)
        ensures
            open == (self@ is Some),
    {
        self.port.is_some()
    }

    /// Ends an attempt to open a port. `opened` is what the device layer
    /// returned: the two handles of the opened port, or its description of
    /// the failure. The new writer replaces the stored handle, which is
    /// dropped, and the duplicate comes back for the reader to be started
    /// on. A failure is reported as an open error and leaves the stored
    /// handle as it was.
    pub fn open(&mut self, opened: Result<OpenedPort<H>, String>) -> (result: Result<H, SessionError>)
        ensures
            final(self)@ == after_open(old(self)@, opened),
            opened matches Ok(port) ==> result == Ok::<H, SessionError>(port.reader),
            opened matches Err(text) ==> result matches Err(error) && error@ == SessionErrorView::Open(text@),
    {
        match opened {
            Ok(port) => {
                self.port = Some(port.writer);
                Ok(port.reader)
            },
            Err(text) => Err(SessionError::Open(text)),
        }
    }

    /// Drops the stored handle, if there is one. Closing a closed manager
    /// changes nothing.
    pub fn close(&mut self)
        ensures
            final(self)@ == after_close(old(self)@),
    {
        self.port = None;
    }

    /// The stored handle.
    pub fn port(&self) -> (port: Option<&H>)
        ensures
            port == match self@ {
                Some(handle) => Some(&handle),
                None => None,
            },
    {
        self.port.as_ref()
    }

    /// The stored handle, to act on the device. What the caller leaves in it
    /// stays stored.
    pub fn port_mut(&mut self) -> (port: Option<&mut H>)
        ensures
            old(self)@ is None ==> port is None && final(self)@ is None,
            old(self)@ matches Some(handle) ==> port matches Some(target) && *target == handle && final(self)@
                == Some(*final(target)),
    {
        match &mut self.port {
            Some(handle) => Some(handle),
            None => None,
        }
    }

    /// Starts a write of `data`: with a port stored the first step sends all
    /// of `data`, with none the write is over with a not-open error.
    pub fn begin_write(&self, data: Vec<u8>) -> (step: WriteStep)
        ensures
            step@ == first_step(self@, data@),
    {
        if self.port.is_some() {
            WriteStep::Send(data)
        } else {
            WriteStep::Done(Err(SessionError::NotOpen))
        }
    }
}

/// Whatever was stored, and however the attempt to open ended, a close that
/// follows leaves no handle stored, and a write that follows the close ends
/// at once with a not-open error.
pub proof fn lemma_close_after_open_rejects_write<H>(
    stored: Option<H>,
    opened: Result<OpenedPort<H>, String>,
    data: Seq<u8>,
)
    ensures
        after_close(after_open(stored, opened)) is None,
        first_step(after_close(after_open(stored, opened)), data) == WriteStepView::Done(
            Err(SessionErrorView::NotOpen),
        ),
{
}

/// How a write ends is decided by the stored handle and the device's two
/// replies alone. Without a port it ends with a not-open error whatever the
/// replies would be. With a port it ends well exactly when the device took
/// all of `data` and then flushed, and with a write error otherwise.
pub proof fn lemma_write_ends_whole_or_in_error<H>(
    stored: Option<H>,
    data: Seq<u8>,
    sent: Result<(), Seq<char>>,
    flushed: Result<(), Seq<char>>,
)
    ensures
        first_step(stored, data).after(sent).after(flushed) is Done,
        stored is None ==> first_step(stored, data).after(sent).after(flushed) == WriteStepView::Done(
            Err(SessionErrorView::NotOpen),
        ),
        stored is Some ==> (first_step(stored, data).after(sent).after(flushed) == WriteStepView::Done(Ok(()))
            <==> sent is Ok && flushed is Ok),
        stored is Some && !(sent is Ok && flushed is Ok) ==> first_step(stored, data).after(sent).after(
            flushed,
        )->Done_0 matches Err(SessionErrorView::Write(_)),
{
}

/// A successful open makes the new writer the stored handle, whatever was
/// stored before: of two opens in a row the second one's handle stays, and
/// a write that follows is sent whole.
pub proof fn lemma_second_open_supersedes<H>(
    stored: Option<H>,
    first: OpenedPort<H>,
    second: OpenedPort<H>,
    data: Seq<u8>,
)
    ensures
        after_open(after_open(stored, Ok(first)), Ok(second)) == Some(second.writer),
        first_step(after_open(after_open(stored, Ok(first)), Ok(second)), data) == WriteStepView::Send(data),
{
}

} // verus!

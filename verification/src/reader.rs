//! The decisions of the background reader of an open port.
//!
//! The reader reads into a scratch buffer again and again. Every read that
//! brought bytes becomes one data notification with exactly those bytes; a
//! read that brought none, or ran into the read timeout, is passed over; any
//! other failure becomes one error notification and ends the reader for
//! good. The program performs the reads and delivers the notifications;
//! what follows from each read is decided here.

use vstd::prelude::*;
use vstd::slice::{slice_subrange, slice_to_vec};

verus! {

/// The size of the scratch buffer that a reader reads into, in bytes.
pub const READ_BUFFER_SIZE: usize = 4096;

/// The name under which a chunk of received bytes is announced.
pub const DATA_EVENT: &'static str = "serial-data";

/// The name under which the reader's terminal failure is announced.
pub const ERROR_EVENT: &'static str = "serial-error";

/// How one read on the device ended.
#[derive(Clone, Debug, PartialEq, Eq)]
pub enum ReadOutcome {
    /// The read stored this many bytes at the start of the buffer.
    Read(usize),
    /// No data arrived within the read timeout.
    TimedOut,
    /// The read failed for another reason, described by the device.
    Failed(String),
}

/// The mathematical content of a [`ReadOutcome`].
pub enum ReadOutcomeView {
    Read(nat),
    TimedOut,
    Failed(Seq<char>),
}

impl View for ReadOutcome {
    type V = ReadOutcomeView;

    open spec fn view(&self) -> ReadOutcomeView {
        match self {
            ReadOutcome::Read(count) => ReadOutcomeView::Read(*count as nat),
            ReadOutcome::TimedOut => ReadOutcomeView::TimedOut,
            ReadOutcome::Failed(text) => ReadOutcomeView::Failed(text@),
        }
    }
}

/// What the reader sends to its consumer.
#[derive(Clone, Debug, PartialEq, Eq)]
pub enum Notification {
    /// The bytes of one read, in the order they were read. Where one chunk
    /// ends says nothing about where a message ends.
    Data(Vec<u8>),
    /// The failure that ended the reader, as the device described it.
    Error(String),
}

/// The mathematical content of a [`Notification`].
pub enum NotificationView {
    Data(Seq<u8>),
    Error(Seq<char>),
}

impl View for Notification {
    type V = NotificationView;

    open spec fn view(&self) -> NotificationView {
        match self {
            Notification::Data(bytes) => NotificationView::Data(bytes@),
            Notification::Error(text) => NotificationView::Error(text@),
        }
    }
}

impl NotificationView {
    /// The name under which the notification is announced.
    pub open spec fn event(self) -> Seq<char> {
        match self {
            NotificationView::Data(_) => DATA_EVENT@,
            NotificationView::Error(_) => ERROR_EVENT@,
        }
    }
}

impl ReadOutcome {
    /// A copy of the outcome.
    fn duplicate(&self) -> (copy: ReadOutcome)
        ensures
            copy@ == self@,
    {
        match self {
            ReadOutcome::Read(count) => ReadOutcome::Read(*count),
            ReadOutcome::TimedOut => ReadOutcome::TimedOut,
            ReadOutcome::Failed(text) => ReadOutcome::Failed(text.clone()),
        }
    }
}

impl Notification {
    /// The name under which the notification is announced.
    pub fn event(&self) -> (name: &'static str)
        ensures
            name@ == self@.event(),
    {
        match self {
            Notification::Data(_) => DATA_EVENT,
            Notification::Error(_) => ERROR_EVENT,
        }
    }
}

/// The notification that one read gives rise to. A reader that has ended
/// sends nothing. A running one sends the bytes that were read if there are
/// any, and the device's words if the read failed other than by timeout.
pub open spec fn emitted(running: bool, buffer: Seq<u8>, outcome: ReadOutcomeView) -> Option<NotificationView> {
    if !running {
        None
    } else {
        match outcome {
            ReadOutcomeView::Read(count) => if count > 0 {
                Some(NotificationView::Data(buffer.take(count as int)))
            } else {
                None
            },
            ReadOutcomeView::TimedOut => None,
            ReadOutcomeView::Failed(text) => Some(NotificationView::Error(text)),
        }
    }
}

/// The mathematical content of what a read made the reader send.
pub open spec fn sent_view(note: Option<Notification>) -> Option<NotificationView> {
    match note {
        Some(sent) => Some(sent@),
        None => None,
    }
}

/// Whether the reader goes on after one read: it does unless it had ended
/// already or the read failed other than by timeout.
pub open spec fn goes_on(running: bool, outcome: ReadOutcomeView) -> bool {
    running && !(outcome is Failed)
}

/// The state of one reader: running from its creation until its first
/// failed read, ended from then on.
#[derive(Debug)]
pub struct Reader {
    running: bool,
}

impl Reader {
    /// Whether the reader still reads.
    pub closed spec fn running(&self) -> bool {
        self.running
    }

    /// A reader that has not read yet.
    pub fn new() -> (reader: Reader)
        ensures
            reader.running(),
    {
        Reader { running: true }
    }

    /// Whether the reader still reads. Once it is false it stays false.
    pub fn is_running(&self) -> (running: bool)
        ensures
            running == self.running(),
    {
        self.running
    }

    /// Takes in how one read into `buffer` ended and returns what is to be
    /// sent to the consumer, if anything. A count is a count of bytes at the
    /// start of `buffer`, so it does not exceed the buffer's length.
    pub fn on_read(&mut self, buffer: &[u8], outcome: ReadOutcome) -> (note: Option<Notification>)
        requires
            outcome matches ReadOutcome::Read(count) ==> count <= buffer@.len(),
        ensures
            final(self).running() == goes_on(old(self).running(), outcome@),
            sent_view(note) == emitted(old(self).running(), buffer@, outcome@),
            note matches Some(Notification::Data(bytes)) ==> bytes@.len() > 0,
    {
        if !self.running {
            return None;
        }
        match outcome {
            ReadOutcome::Read(count) => {
                if count > 0 {
                    Some(Notification::Data(slice_to_vec(slice_subrange(buffer, 0, count))))
                } else {
                    None
                }
            },
            ReadOutcome::TimedOut => None,
            ReadOutcome::Failed(text) => {
                self.running = false;
                Some(Notification::Error(text))
            },
        }
    }
}

/// One read as a record: what the buffer held after it and how it ended.
#[derive(Clone, Debug, PartialEq, Eq)]
pub struct ReadAttempt {
    pub buffer: Vec<u8>,
    pub outcome: ReadOutcome,
}

/// The mathematical content of a [`ReadAttempt`].
pub struct ReadAttemptView {
    pub buffer: Seq<u8>,
    pub outcome: ReadOutcomeView,
}

impl View for ReadAttempt {
    type V = ReadAttemptView;

    open spec fn view(&self) -> ReadAttemptView {
        ReadAttemptView { buffer: self.buffer@, outcome: self.outcome@ }
    }
}

impl ReadAttemptView {
    /// A count of bytes read does not exceed the buffer that they were read
    /// into.
    pub open spec fn well_formed(self) -> bool {
        self.outcome matches ReadOutcomeView::Read(count) ==> count <= self.buffer.len()
    }
}

/// Every record of the trace is well formed.
pub open spec fn well_formed_trace(trace: Seq<ReadAttemptView>) -> bool {
    forall|i: int| 0 <= i < trace.len() ==> (#[trigger] trace[i]).well_formed()
}

/// The mathematical content of a recorded sequence of reads.
pub open spec fn trace_view(trace: Seq<ReadAttempt>) -> Seq<ReadAttemptView> {
    trace.map_values(|attempt: ReadAttempt| attempt@)
}

/// The mathematical content of a sequence of notifications.
pub open spec fn notes_view(notes: Seq<Notification>) -> Seq<NotificationView> {
    notes.map_values(|note: Notification| note@)
}

/// Whether a reader that was `running` before the reads of `trace` still
/// runs after them.
pub open spec fn running_after(running: bool, trace: Seq<ReadAttemptView>) -> bool
    decreases trace.len(),
{
    if trace.len() == 0 {
        running
    } else {
        goes_on(running_after(running, trace.drop_last()), trace.last().outcome)
    }
}

/// What a reader that was `running` before the reads of `trace` sends in
/// their course, in order.
pub open spec fn notifications(running: bool, trace: Seq<ReadAttemptView>) -> Seq<NotificationView>
    decreases trace.len(),
{
    if trace.len() == 0 {
        Seq::empty()
    } else {
        let earlier = notifications(running, trace.drop_last());
        match emitted(running_after(running, trace.drop_last()), trace.last().buffer, trace.last().outcome) {
            Some(note) => earlier.push(note),
            None => earlier,
        }
    }
}

impl ReadAttempt {
    /// Whether the record is well formed.
    pub fn is_well_formed(&self) -> (ok: bool)
        ensures
            ok == self@.well_formed(),
    {
        match &self.outcome {
            ReadOutcome::Read(count) => *count <= self.buffer.len(),
            _ => true,
        }
    }
}

impl Reader {
    /// Takes in a recorded sequence of reads, one after the other, and
    /// returns what is to be sent to the consumer, in order.
    pub fn replay(&mut self, trace: &Vec<ReadAttempt>) -> (notes: Vec<Notification>)
        requires
            well_formed_trace(trace_view(trace@)),
        ensures
            final(self).running() == running_after(old(self).running(), trace_view(trace@)),
            notes_view(notes@) == notifications(old(self).running(), trace_view(trace@)),
    {
        let ghost start = self.running();
        let ghost whole = trace_view(trace@);
        let mut notes: Vec<Notification> = Vec::new();
        let mut i: usize = 0;
        while i < trace.len()
            invariant
                i <= trace.len(),
                whole == trace_view(trace@),
                well_formed_trace(whole),
                self.running() == running_after(start, whole.take(i as int)),
                notes_view(notes@) == notifications(start, whole.take(i as int)),
            decreases trace.len() - i,
        {
            let attempt = &trace[i];
            proof {
                assert(whole.take(i + 1).drop_last() == whole.take(i as int));
                assert(whole[i as int].well_formed());
            }
            let note = self.on_read(attempt.buffer.as_slice(), attempt.outcome.duplicate());
            match note {
                Some(sent) => {
                    notes.push(sent);
                },
                None => {},
            }
            i += 1;
        }
        assert(whole.take(i as int) == whole);
        notes
    }
}

/// A reader that still runs after a trace has met no failure in it, and
/// sent no error notification.
proof fn lemma_running_means_no_error(running: bool, trace: Seq<ReadAttemptView>)
    requires
        running_after(running, trace),
    ensures
        running,
        forall|i: int| 0 <= i < trace.len() ==> !((#[trigger] trace[i]).outcome is Failed),
        forall|k: int|
            0 <= k < notifications(running, trace).len() ==> !(#[trigger] notifications(running, trace)[k]
                is Error),
    decreases trace.len(),
{
    if trace.len() > 0 {
        let before = trace.drop_last();
        lemma_running_means_no_error(running, before);
        assert forall|i: int| 0 <= i < trace.len() implies !((#[trigger] trace[i]).outcome is Failed) by {
            if i < before.len() {
                assert(trace[i] == before[i]);
            }
        }
    }
}

/// A reader that has ended stays ended and sends nothing, whatever the
/// reads bring.
pub proof fn lemma_ended_reader_is_silent(trace: Seq<ReadAttemptView>)
    ensures
        !running_after(false, trace),
        notifications(false, trace) == Seq::<NotificationView>::empty(),
    decreases trace.len(),
{
    if trace.len() > 0 {
        lemma_ended_reader_is_silent(trace.drop_last());
    }
}

/// No data notification is empty: every chunk that a reader sends holds at
/// least one byte, and no more bytes than the buffer of its read.
pub proof fn lemma_no_empty_chunk(running: bool, trace: Seq<ReadAttemptView>)
    requires
        well_formed_trace(trace),
    ensures
        forall|k: int|
            0 <= k < notifications(running, trace).len() ==> (#[trigger] notifications(running, trace)[k]
                matches NotificationView::Data(bytes) ==> bytes.len() > 0),
    decreases trace.len(),
{
    if trace.len() > 0 {
        lemma_no_empty_chunk(running, trace.drop_last());
    }
}

/// After a read that failed other than by timeout the reader has ended, and
/// the reads that follow add nothing to what it sent: the notifications of
/// the whole trace are those of the trace up to and including the failed
/// read.
pub proof fn lemma_silent_after_failure(running: bool, trace: Seq<ReadAttemptView>, at: int)
    requires
        0 <= at < trace.len(),
        trace[at].outcome is Failed,
    ensures
        !running_after(running, trace),
        notifications(running, trace) == notifications(running, trace.take(at + 1)),
    decreases trace.len(),
{
    if trace.len() == at + 1 {
        assert(trace.take(at + 1) == trace);
    } else {
        let before = trace.drop_last();
        lemma_silent_after_failure(running, before, at);
        assert(before.take(at + 1) == trace.take(at + 1));
    }
}

/// An error notification is the last thing that a reader sends: there is
/// at most one, and no data notification follows it.
pub proof fn lemma_error_is_last(running: bool, trace: Seq<ReadAttemptView>)
    ensures
        forall|k: int|
            0 <= k < notifications(running, trace).len() && (#[trigger] notifications(running, trace)[k])
                is Error ==> k == notifications(running, trace).len() - 1,
    decreases trace.len(),
{
    if trace.len() > 0 {
        let before = trace.drop_last();
        lemma_error_is_last(running, before);
        if running_after(running, before) {
            lemma_running_means_no_error(running, before);
        }
    }
}

} // verus!

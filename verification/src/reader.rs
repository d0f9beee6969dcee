//! The decisions of the task that reads the device and feeds the channel.
//!
//! The task itself reads and sends; after each of the two it asks here what
//! to do next. A failed read is logged and the task reads again. An event
//! that the channel cannot take yet is sent again, never dropped. Only a
//! channel whose other end is gone ends the task.

use vstd::prelude::*;
use vstd::string::*;
use crate::action::{LogEntry, LogEntryView, Severity};
use crate::channel::SendOutcome;
use crate::event::InputEvent;

verus! {

/// What the reading task does next.
#[derive(Clone, Copy, Debug, PartialEq, Eq, Structural)]
pub enum ReaderNext {
    /// Read the next event from the device.
    Read,
    /// Send this event into the channel, waiting for room if there is none.
    Send(InputEvent),
    /// End the task.
    Exit,
}

/// A decision of the reading task: a line to log, if any, and what to do next.
#[derive(Clone, Debug, PartialEq, Eq)]
pub struct ReaderStep {
    pub log: Option<LogEntry>,
    pub next: ReaderNext,
}

/// Mathematical content of a [`ReaderStep`].
pub struct ReaderStepView {
    pub log: Option<LogEntryView>,
    pub next: ReaderNext,
}

impl View for ReaderStep {
    type V = ReaderStepView;

    open spec fn view(&self) -> ReaderStepView {
        ReaderStepView {
            log: match self.log {
                Some(entry) => Some(entry@),
                None => None,
            },
            next: self.next,
        }
    }
}

/// The log line for a read or a send that failed with `error`.
pub open spec fn event_error_entry(severity: Severity, error: Seq<char>) -> LogEntryView {
    LogEntryView { severity, message: "event err: "@ + error }
}

/// The decision after a read: an event goes to the channel; an error is
/// logged as a warning and the task reads again.
pub open spec fn after_read_spec(result: Result<InputEvent, Seq<char>>) -> ReaderStepView {
    match result {
        Ok(event) => ReaderStepView { log: None, next: ReaderNext::Send(event) },
        Err(error) => ReaderStepView {
            log: Some(event_error_entry(Severity::Warn, error)),
            next: ReaderNext::Read,
        },
    }
}

/// The decision after a send: once the event is queued the task reads again;
/// an event that found the channel full is sent again; a closed channel is
/// logged as an error and ends the task.
pub open spec fn after_send_spec(outcome: SendOutcome) -> ReaderStepView {
    match outcome {
        SendOutcome::Sent => ReaderStepView { log: None, next: ReaderNext::Read },
        SendOutcome::Full(event) => ReaderStepView { log: None, next: ReaderNext::Send(event) },
        SendOutcome::Closed(_) => ReaderStepView {
            log: Some(event_error_entry(Severity::Error, "channel closed"@)),
            next: ReaderNext::Exit,
        },
    }
}

/// The view of a read result: the error by its text.
pub open spec fn read_result_view(result: Result<InputEvent, String>) -> Result<
    InputEvent,
    Seq<char>,
> {
    match result {
        Ok(event) => Ok(event),
        Err(error) => Err(error@),
    }
}

fn event_error(severity: Severity, error: &str) -> (entry: LogEntry)
    ensures
        entry@ == event_error_entry(severity, error@),
{
    LogEntry { severity, message: String::from_str("event err: ").concat(error) }
}

/// Decides what follows a read of the device.
pub fn after_read(result: Result<InputEvent, String>) -> (step: ReaderStep)
    ensures
        step@ == after_read_spec(read_result_view(result)),
{
    match result {
        Ok(event) => ReaderStep { log: None, next: ReaderNext::Send(event) },
        Err(error) => ReaderStep {
            log: Some(event_error(Severity::Warn, error.as_str())),
            next: ReaderNext::Read,
        },
    }
}

/// Decides what follows an attempt to send an event into the channel.
pub fn after_send(outcome: SendOutcome) -> (step: ReaderStep)
    ensures
        step@ == after_send_spec(outcome),
{
    match outcome {
        SendOutcome::Sent => ReaderStep { log: None, next: ReaderNext::Read },
        SendOutcome::Full(event) => ReaderStep { log: None, next: ReaderNext::Send(event) },
        SendOutcome::Closed(_) => ReaderStep {
            log: Some(event_error(Severity::Error, "channel closed")),
            next: ReaderNext::Exit,
        },
    }
}

/// What the task does after a series of reads whose events the channel all
/// takes: `Read` after each of them, and so after the last.
pub open spec fn after_reads_spec(results: Seq<Result<InputEvent, Seq<char>>>) -> ReaderNext
    decreases results.len(),
{
    if results.len() == 0 {
        ReaderNext::Read
    } else {
        match after_reads_spec(results.drop_last()) {
            ReaderNext::Read => match after_read_spec(results.last()).next {
                ReaderNext::Send(_) => after_send_spec(SendOutcome::Sent).next,
                next => next,
            },
            next => next,
        }
    }
}

/// A failed read never ends the task and never sends anything: it is logged
/// as a warning that carries the error, and the next read follows.
pub proof fn lemma_read_error_reads_again(error: Seq<char>)
    ensures
        after_read_spec(Err(error)).next == ReaderNext::Read,
        after_read_spec(Err(error)).log == Some(
            LogEntryView { severity: Severity::Warn, message: "event err: "@ + error },
        ),
{
}

/// However many reads fail, and in whatever places, the task goes on to read
/// as long as the channel takes its events.
pub proof fn lemma_reader_keeps_reading(results: Seq<Result<InputEvent, Seq<char>>>)
    ensures
        after_reads_spec(results) == ReaderNext::Read,
    decreases results.len(),
{
    if results.len() > 0 {
        lemma_reader_keeps_reading(results.drop_last());
    }
}

/// The task ends only when the channel is closed; an event that finds the
/// channel full is the one that is sent next.
pub proof fn lemma_reader_stops_only_on_closure(outcome: SendOutcome)
    ensures
        after_send_spec(outcome).next == ReaderNext::Exit <==> outcome is Closed,
        outcome matches SendOutcome::Full(event) ==> after_send_spec(outcome).next
            == ReaderNext::Send(event),
{
}

} // verus!

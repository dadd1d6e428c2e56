//! Outcomes and failures that cross the library's boundary.
use vstd::prelude::*;

verus! {

/// A message could not be enqueued: the actor behind the mailbox has stopped.
#[derive(Clone, Copy, Debug, PartialEq, Eq, Structural)]
pub struct MailboxClosed;

/// Why a shared mailbox refused a message.
#[derive(Clone, Copy, Debug, PartialEq, Eq, Structural)]
pub enum SendFailure {
    /// Every worker has gone; nothing will read the mailbox again.
    MailboxClosed,
    /// The mailbox is bounded and has no room at the moment.
    MailboxFull,
}

/// Why a request produced no response.
#[derive(Clone, Copy, Debug, PartialEq, Eq, Structural)]
pub enum AskFailed {
    /// The request was never enqueued: the mailbox was closed.
    MailboxClosed,
    /// The request was never enqueued: the bounded mailbox was full.
    MailboxFull,
    /// The reply slot was dropped before a response was put in it.
    NoResponse,
}

/// What became of a handler's response once the handler had run.
#[derive(Clone, Copy, Debug, PartialEq, Eq, Structural)]
pub enum Delivery {
    /// The sender asked for no reply; the response was discarded.
    Unanswered,
    /// The response was handed to the waiting asker.
    Replied,
    /// The asker had stopped waiting. The handler's effects stand.
    ReplyDeliveryFailed,
}

/// A lifecycle operation was requested in a state that does not allow it.
#[derive(Clone, Copy, Debug, PartialEq, Eq, Structural)]
pub enum RunnerError {
    /// `start` on a runner that has already been started.
    AlreadyStarted,
    /// A delivery or a stop on a runner that is not running.
    NotRunning,
    /// A stop while some worker of the pool is still running.
    WorkersRunning,
    /// The exit of a worker when every worker of the pool has exited before.
    NoWorkerRunning,
}

impl From<SendFailure> for AskFailed {
    fn from(failure: SendFailure) -> (failed: AskFailed) {
        match failure {
            SendFailure::MailboxClosed => AskFailed::MailboxClosed,
            SendFailure::MailboxFull => AskFailed::MailboxFull,
        }
    }
}

impl vstd::std_specs::convert::FromSpecImpl<SendFailure> for AskFailed {
    open spec fn obeys_from_spec() -> bool {
        true
    }

    open spec fn from_spec(failure: SendFailure) -> AskFailed {
        match failure {
            SendFailure::MailboxClosed => AskFailed::MailboxClosed,
            SendFailure::MailboxFull => AskFailed::MailboxFull,
        }
    }
}

} // verus!

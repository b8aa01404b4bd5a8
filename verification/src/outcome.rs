//! The values a poll can answer with.

use vstd::prelude::*;

verus! {

/// Why an operation failed.
#[derive(Clone, Copy, Debug, PartialEq, Eq, Structural)]
pub enum ErrorKind {
    /// The sending end of the notification channel went away before it sent.
    ChannelClosed,
}

/// What one non-blocking look at a notification channel shows.
#[derive(Clone, Copy, Debug, PartialEq, Eq, Structural)]
pub enum ChannelStatus {
    /// The notification has arrived.
    Notified,
    /// Nothing has arrived yet and the sender is still alive.
    Empty,
    /// Nothing has arrived and nothing ever will: the sender is gone.
    Closed,
}

/// The answer of a poll: not yet, or the final value.
#[derive(Debug, PartialEq, Eq)]
pub enum PollResult<T> {
    Pending,
    Ready(T),
}

/// The final value of both operations of this crate.
pub type Completion = Result<(), ErrorKind>;

impl ErrorKind {
    /// The text of [`ErrorKind::description`].
    pub open spec fn description_text(self) -> Seq<char> {
        "Disconnected"@
    }

    /// A short diagnostic text for the error.
    pub fn description(&self) -> (text: String)
        ensures
            text@ == self.description_text(),
    {
        "Disconnected".to_string()
    }
}

impl ChannelStatus {
    /// What a poll of an armed delay answers on seeing this status:
    /// a notification completes it, an empty channel keeps it waiting,
    /// a closed one fails it.
    pub open spec fn outcome(self) -> PollResult<Completion> {
        match self {
            ChannelStatus::Notified => PollResult::Ready(Ok(())),
            ChannelStatus::Empty => PollResult::Pending,
            ChannelStatus::Closed => PollResult::Ready(Err(ErrorKind::ChannelClosed)),
        }
    }

    /// Turns a channel status into the answer of the poll that saw it.
    pub fn resolve(self) -> (result: PollResult<Completion>)
        ensures
            result == self.outcome(),
    {
        match self {
            ChannelStatus::Notified => PollResult::Ready(Ok(())),
            ChannelStatus::Empty => PollResult::Pending,
            ChannelStatus::Closed => PollResult::Ready(Err(ErrorKind::ChannelClosed)),
        }
    }
}

impl<T> PollResult<T> {
    /// True for `Pending`.
    pub fn is_pending(&self) -> (pending: bool)
        ensures
            pending == (*self is Pending),
    {
        match self {
            PollResult::Pending => true,
            PollResult::Ready(_) => false,
        }
    }

    /// True for `Ready`.
    pub fn is_ready(&self) -> (ready: bool)
        ensures
            ready == (*self is Ready),
    {
        match self {
            PollResult::Pending => false,
            PollResult::Ready(_) => true,
        }
    }
}

} // verus!

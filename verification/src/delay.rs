//! The delay operation: ready once a fixed duration has passed.

use std::sync::mpsc::{Receiver, Sender};
use std::time::Duration;
use vstd::prelude::*;
use crate::channel::{open_channel, try_receive};
use crate::outcome::{ChannelStatus, Completion, PollResult};

verus! {

/// What the contracts say of a delay operation: how long it waits, and
/// whether its channel exists yet.
pub struct DelayModel {
    pub duration: Duration,
    pub armed: bool,
}

/// What the contracts say of the answer of one poll: the result, and the
/// duration of the timer that the poll ordered, if it ordered one.
pub struct TurnModel {
    pub result: PollResult<Completion>,
    pub timer: Option<Duration>,
}

/// A delay model together with the answer of the poll that led to it.
pub struct DelayTurn {
    pub next: DelayModel,
    pub turn: TurnModel,
}

impl DelayModel {
    /// The model of an operation that was made and never polled.
    pub open spec fn fresh(duration: Duration) -> DelayModel {
        DelayModel { duration, armed: false }
    }

    /// One poll. The first poll arms the operation, orders its timer and
    /// answers `Pending` whatever `observed` is. Every later poll leaves the
    /// operation as it is, orders nothing and answers by `observed` alone.
    pub open spec fn poll(self, observed: ChannelStatus) -> DelayTurn {
        if self.armed {
            DelayTurn { next: self, turn: TurnModel { result: observed.outcome(), timer: None } }
        } else {
            DelayTurn {
                next: DelayModel { duration: self.duration, armed: true },
                turn: TurnModel { result: PollResult::Pending, timer: Some(self.duration) },
            }
        }
    }
}

/// A request to run one timer: wait for `duration`, then send one unit on
/// `sender`, then wake the party whose poll received this order.
///
/// An order that is dropped without being carried out closes the channel,
/// and the next poll of the operation fails with `ChannelClosed`.
pub struct TimerOrder {
    duration: Duration,
    sender: Sender<()>,
}

impl TimerOrder {
    /// How long the timer has to wait before it sends.
    pub closed spec fn view(&self) -> Duration {
        self.duration
    }

    /// How long the timer has to wait before it sends.
    pub fn duration(&self) -> (duration: Duration)
        ensures
            duration == self@,
    {
        self.duration
    }

    /// Gives up the order for its two parts.
    pub fn into_parts(self) -> (parts: (Duration, Sender<()>))
        ensures
            parts.0 == self@,
    {
        (self.duration, self.sender)
    }
}

/// The answer of one poll.
pub struct PollStep {
    /// Whether the operation is done, and how it ended.
    pub result: PollResult<Completion>,
    /// The timer to start, where this poll began a wait.
    pub timer: Option<TimerOrder>,
}

impl PollStep {
    /// The result, and the duration of the timer that was ordered.
    pub open spec fn view(&self) -> TurnModel {
        TurnModel {
            result: self.result,
            timer: match self.timer {
                Some(order) => Some(order@),
                None => None,
            },
        }
    }
}

/// An operation that becomes ready once a fixed duration has passed.
///
/// It is made without a channel. Its first poll opens the channel, keeps the
/// receiving end and hands the sending end out in a [`TimerOrder`]; later
/// polls look at the channel without blocking.
pub struct DelayOperation {
    duration: Duration,
    channel: Option<Receiver<()>>,
}

impl DelayOperation {
    /// The duration, and whether the channel exists.
    pub closed spec fn view(&self) -> DelayModel {
        DelayModel { duration: self.duration, armed: self.channel is Some }
    }

    /// A delay of `duration` that has no channel and has ordered no timer.
    pub fn new(duration: Duration) -> (op: DelayOperation)
        ensures
            op@ == DelayModel::fresh(duration),
    {
        DelayOperation { duration, channel: None }
    }

    /// The fixed wait length.
    pub fn duration(&self) -> (duration: Duration)
        ensures
            duration == self@.duration,
    {
        self.duration
    }

    /// Whether the first poll has happened.
    pub fn is_armed(&self) -> (armed: bool)
        ensures
            armed == self@.armed,
    {
        self.channel.is_some()
    }

    /// Looks at the channel without blocking. An operation that has no
    /// channel yet has received nothing: `Empty`.
    ///
    /// The look takes a notification that it finds out of the channel, so
    /// the status belongs to one poll: hand it to [`DelayOperation::advance`].
    pub fn observe(&self) -> (observed: ChannelStatus)
        ensures
            !self@.armed ==> observed == ChannelStatus::Empty,
    {
        match &self.channel {
            Some(receiver) => try_receive(receiver),
            None => ChannelStatus::Empty,
        }
    }

    /// One poll, given what a look at the channel showed.
    ///
    /// The first poll opens the channel and orders the timer; `observed` is
    /// not read then. A later poll answers by `observed` and changes nothing.
    pub fn advance(&mut self, observed: ChannelStatus) -> (step: PollStep)
        ensures
            final(self)@ == old(self)@.poll(observed).next,
            step@ == old(self)@.poll(observed).turn,
    {
        if self.channel.is_some() {
            PollStep { result: observed.resolve(), timer: None }
        } else {
            let (sender, receiver) = open_channel();
            self.channel = Some(receiver);
            PollStep {
                result: PollResult::Pending,
                timer: Some(TimerOrder { duration: self.duration, sender }),
            }
        }
    }

    /// One poll: looks at the channel, then answers.
    ///
    /// The first poll answers `Pending` with the order for the one timer of
    /// this operation. No later poll orders a timer or changes the
    /// operation, and its answer is the one that [`ChannelStatus::outcome`]
    /// gives for what the channel showed.
    pub fn poll(&mut self) -> (step: PollStep)
        ensures
            !old(self)@.armed ==> {
                &&& final(self)@ == old(self)@.poll(ChannelStatus::Empty).next
                &&& step@ == old(self)@.poll(ChannelStatus::Empty).turn
            },
            exists|observed: ChannelStatus|
                {
                    &&& final(self)@ == #[trigger] old(self)@.poll(observed).next
                    &&& step@ == old(self)@.poll(observed).turn
                },
    {
        let observed = self.observe();
        self.advance(observed)
    }
}

} // verus!

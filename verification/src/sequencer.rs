//! The step sequencer: one delay, then a second, then success.

use std::time::Duration;
use vstd::prelude::*;
use crate::delay::{DelayModel, DelayOperation, PollStep, TurnModel};
use crate::outcome::{ChannelStatus, Completion, PollResult};

verus! {

/// What the contracts say of a sequencer: its state, with the model of the
/// delay that the state holds.
pub enum SequencerModel {
    Initial { duration_one: Duration, duration_two: Duration },
    WaitingStepOne { delay: DelayModel, duration_two: Duration },
    WaitingStepTwo { delay: DelayModel },
    Finished,
}

/// A sequencer model together with the answer of the poll that led to it.
pub struct SequencerTurn {
    pub next: SequencerModel,
    pub turn: TurnModel,
}

impl SequencerModel {
    /// The number of states still ahead, the terminal one not counted.
    pub open spec fn rank(self) -> nat {
        match self {
            SequencerModel::Initial { .. } => 3,
            SequencerModel::WaitingStepOne { .. } => 2,
            SequencerModel::WaitingStepTwo { .. } => 1,
            SequencerModel::Finished => 0,
        }
    }

    /// The sequencer holds a delay whose timer has been ordered.
    pub open spec fn waiting(self) -> bool {
        match self {
            SequencerModel::WaitingStepOne { delay, .. } => delay.armed,
            SequencerModel::WaitingStepTwo { delay } => delay.armed,
            _ => false,
        }
    }

    /// One poll in the second wait. A pending delay keeps the state, and
    /// anything else ends the sequence with the delay's own result.
    pub open spec fn poll_step_two(delay: DelayModel, observed: ChannelStatus) -> SequencerTurn {
        let inner = delay.poll(observed);
        match inner.turn.result {
            PollResult::Pending => SequencerTurn {
                next: SequencerModel::WaitingStepTwo { delay: inner.next },
                turn: inner.turn,
            },
            PollResult::Ready(completion) => SequencerTurn {
                next: SequencerModel::Finished,
                turn: TurnModel { result: PollResult::Ready(completion), timer: None },
            },
        }
    }

    /// One poll in the first wait. A pending delay keeps the state, a failed
    /// one ends the sequence, and a successful one is followed at once by
    /// the first poll of a fresh second delay.
    pub open spec fn poll_step_one(
        delay: DelayModel,
        duration_two: Duration,
        observed: ChannelStatus,
    ) -> SequencerTurn {
        let inner = delay.poll(observed);
        match inner.turn.result {
            PollResult::Pending => SequencerTurn {
                next: SequencerModel::WaitingStepOne { delay: inner.next, duration_two },
                turn: inner.turn,
            },
            PollResult::Ready(Err(error)) => SequencerTurn {
                next: SequencerModel::Finished,
                turn: TurnModel { result: PollResult::Ready(Err(error)), timer: None },
            },
            PollResult::Ready(Ok(_)) => Self::poll_step_two(
                DelayModel::fresh(duration_two),
                observed,
            ),
        }
    }

    /// One poll of the sequencer, given what a look at the channel of the
    /// delay it holds showed. A sequencer in `Initial` enters the first wait
    /// and is polled there in the same turn. `Finished` is not polled; the
    /// function leaves it as it is.
    pub open spec fn poll(self, observed: ChannelStatus) -> SequencerTurn {
        match self {
            SequencerModel::Initial { duration_one, duration_two } => Self::poll_step_one(
                DelayModel::fresh(duration_one),
                duration_two,
                observed,
            ),
            SequencerModel::WaitingStepOne { delay, duration_two } => Self::poll_step_one(
                delay,
                duration_two,
                observed,
            ),
            SequencerModel::WaitingStepTwo { delay } => Self::poll_step_two(delay, observed),
            SequencerModel::Finished => SequencerTurn {
                next: SequencerModel::Finished,
                turn: TurnModel { result: PollResult::Pending, timer: None },
            },
        }
    }
}

/// Two delays in a row as one operation.
///
/// Exactly one state is active at a time, and a state holds at most one
/// delay. A transition replaces the state whole, so the delay of the state
/// that is left is dropped.
pub enum StepSequencer {
    /// Nothing has been polled yet; no delay exists.
    Initial { duration_one: Duration, duration_two: Duration },
    /// The first delay is in flight.
    WaitingStepOne { delay: DelayOperation, duration_two: Duration },
    /// The first delay succeeded and the second is in flight.
    WaitingStepTwo { delay: DelayOperation },
    /// The sequence has answered `Ready` and must not be polled again.
    Finished,
}

impl StepSequencer {
    /// The state, with the model of the delay it holds.
    pub open spec fn view(&self) -> SequencerModel {
        match *self {
            StepSequencer::Initial { duration_one, duration_two } => SequencerModel::Initial {
                duration_one,
                duration_two,
            },
            StepSequencer::WaitingStepOne { delay, duration_two } => {
                SequencerModel::WaitingStepOne { delay: delay@, duration_two }
            },
            StepSequencer::WaitingStepTwo { delay } => SequencerModel::WaitingStepTwo {
                delay: delay@,
            },
            StepSequencer::Finished => SequencerModel::Finished,
        }
    }

    /// A sequencer in `Initial` that will wait `duration_one`, then
    /// `duration_two`. It holds no delay yet.
    pub fn initial(duration_one: Duration, duration_two: Duration) -> (sequencer: StepSequencer)
        ensures
            sequencer@ == (SequencerModel::Initial { duration_one, duration_two }),
    {
        StepSequencer::Initial { duration_one, duration_two }
    }

    /// Whether the sequence has answered `Ready`.
    pub fn is_finished(&self) -> (finished: bool)
        ensures
            finished == (self@ is Finished),
    {
        match self {
            StepSequencer::Finished => true,
            _ => false,
        }
    }

    /// Looks, without blocking, at the channel of the delay that the
    /// current state holds. A state without a delay has received nothing.
    ///
    /// The look takes a notification that it finds out of the channel, so
    /// the status belongs to one poll: hand it to [`StepSequencer::advance`].
    pub fn observe(&self) -> (observed: ChannelStatus)
        ensures
            !self@.waiting() ==> observed == ChannelStatus::Empty,
    {
        match self {
            StepSequencer::WaitingStepOne { delay, .. } => delay.observe(),
            StepSequencer::WaitingStepTwo { delay } => delay.observe(),
            _ => ChannelStatus::Empty,
        }
    }

    /// One poll, given what a look at the channel showed.
    ///
    /// The sequencer moves through as many states as it can without
    /// waiting, and answers `Pending` only for a delay that is not ready.
    pub fn advance(&mut self, observed: ChannelStatus) -> (step: PollStep)
        requires
            !(old(self)@ is Finished),
        ensures
            final(self)@ == old(self)@.poll(observed).next,
            step@ == old(self)@.poll(observed).turn,
    {
        loop
            invariant
                !(self@ is Finished),
                self@.poll(observed) == old(self)@.poll(observed),
            decreases self@.rank(),
        {
            let next = match self {
                StepSequencer::Initial { duration_one, duration_two } => {
                    StepSequencer::WaitingStepOne {
                        delay: DelayOperation::new(*duration_one),
                        duration_two: *duration_two,
                    }
                },
                StepSequencer::WaitingStepOne { delay, duration_two } => {
                    let inner = delay.advance(observed);
                    match inner.result {
                        PollResult::Pending => {
                            return inner;
                        },
                        PollResult::Ready(Err(error)) => {
                            *self = StepSequencer::Finished;
                            return PollStep { result: PollResult::Ready(Err(error)), timer: None };
                        },
                        PollResult::Ready(Ok(_)) => StepSequencer::WaitingStepTwo {
                            delay: DelayOperation::new(*duration_two),
                        },
                    }
                },
                StepSequencer::WaitingStepTwo { delay } => {
                    let inner = delay.advance(observed);
                    match inner.result {
                        PollResult::Pending => {
                            return inner;
                        },
                        PollResult::Ready(completion) => {
                            *self = StepSequencer::Finished;
                            return PollStep { result: PollResult::Ready(completion), timer: None };
                        },
                    }
                },
                StepSequencer::Finished => {
                    return PollStep { result: PollResult::Pending, timer: None };
                },
            };
            *self = next;
        }
    }

    /// One poll: looks at the channel of the delay in flight, then answers
    /// as [`StepSequencer::advance`] does for what the channel showed.
    ///
    /// A poll of a sequencer that is not waiting depends on no channel. In
    /// `Initial` it enters the first wait, orders the first timer and
    /// answers `Pending`.
    pub fn poll(&mut self) -> (step: PollStep)
        requires
            !(old(self)@ is Finished),
        ensures
            !old(self)@.waiting() ==> {
                &&& final(self)@ == old(self)@.poll(ChannelStatus::Empty).next
                &&& step@ == old(self)@.poll(ChannelStatus::Empty).turn
            },
            exists|observed: ChannelStatus|
                {
                    &&& final(self)@ == #[trigger] old(self)@.poll(observed).next
                    &&& step@ == old(self)@.poll(observed).turn
                },
    {
        let observed = self.observe();
        self.advance(observed)
    }
}

} // verus!

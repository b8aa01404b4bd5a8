//! Runs of polls, and what holds of every run.
//!
//! A run is the sequence of channel statuses that successive polls see. The
//! functions here replay a run on a model and count what the polls
//! answered; the proof functions state what the counts must be.

use std::time::Duration;
use vstd::prelude::*;
use crate::delay::DelayModel;
use crate::outcome::{ChannelStatus, ErrorKind, PollResult};
use crate::sequencer::SequencerModel;

verus! {

/// How often `status` occurs in `seen`.
pub open spec fn occurrences(seen: Seq<ChannelStatus>, status: ChannelStatus) -> nat
    decreases seen.len(),
{
    if seen.len() == 0 {
        0
    } else {
        occurrences(seen.drop_last(), status) + if seen.last() == status {
            1nat
        } else {
            0nat
        }
    }
}

impl DelayModel {
    /// The model after one poll for each entry of `seen`, in order.
    pub open spec fn after(self, seen: Seq<ChannelStatus>) -> DelayModel
        decreases seen.len(),
    {
        if seen.len() == 0 {
            self
        } else {
            self.after(seen.drop_last()).poll(seen.last()).next
        }
    }

    /// How many polls of the run ordered a timer.
    pub open spec fn timers(self, seen: Seq<ChannelStatus>) -> nat
        decreases seen.len(),
    {
        if seen.len() == 0 {
            0
        } else {
            self.timers(seen.drop_last()) + if self.after(seen.drop_last()).poll(
                seen.last(),
            ).turn.timer is Some {
                1nat
            } else {
                0nat
            }
        }
    }

    /// How many polls of the run answered `Pending`.
    pub open spec fn pendings(self, seen: Seq<ChannelStatus>) -> nat
        decreases seen.len(),
    {
        if seen.len() == 0 {
            0
        } else {
            self.pendings(seen.drop_last()) + if self.after(seen.drop_last()).poll(
                seen.last(),
            ).turn.result is Pending {
                1nat
            } else {
                0nat
            }
        }
    }
}

impl SequencerModel {
    /// The model after one poll for each entry of `seen`, in order.
    pub open spec fn after(self, seen: Seq<ChannelStatus>) -> SequencerModel
        decreases seen.len(),
    {
        if seen.len() == 0 {
            self
        } else {
            self.after(seen.drop_last()).poll(seen.last()).next
        }
    }

    /// No poll of the run meets a finished sequencer.
    pub open spec fn admits(self, seen: Seq<ChannelStatus>) -> bool {
        seen.len() == 0 || !(self.after(seen.drop_last()) is Finished)
    }

    /// How many polls of the run ordered a timer.
    pub open spec fn timers(self, seen: Seq<ChannelStatus>) -> nat
        decreases seen.len(),
    {
        if seen.len() == 0 {
            0
        } else {
            self.timers(seen.drop_last()) + if self.after(seen.drop_last()).poll(
                seen.last(),
            ).turn.timer is Some {
                1nat
            } else {
                0nat
            }
        }
    }

    /// How many polls of the run answered `Pending`.
    pub open spec fn pendings(self, seen: Seq<ChannelStatus>) -> nat
        decreases seen.len(),
    {
        if seen.len() == 0 {
            0
        } else {
            self.pendings(seen.drop_last()) + if self.after(seen.drop_last()).poll(
                seen.last(),
            ).turn.result is Pending {
                1nat
            } else {
                0nat
            }
        }
    }
}

/// A delay that has been polled at least once is armed and keeps its
/// duration, whatever the polls saw.
pub proof fn lemma_delay_stays_armed(start: DelayModel, seen: Seq<ChannelStatus>)
    requires
        seen.len() >= 1 || start.armed,
    ensures
        start.after(seen).armed,
        start.after(seen).duration == start.duration,
    decreases seen.len(),
{
    if seen.len() >= 2 || (seen.len() == 1 && start.armed) {
        lemma_delay_stays_armed(start, seen.drop_last());
    } else if seen.len() == 1 {
        assert(start.after(seen.drop_last()) == start);
    }
}

/// A delay orders exactly one timer over its whole life: none while it is
/// never polled, and one in all however often it is polled and whatever the
/// polls see.
pub proof fn lemma_delay_orders_one_timer(duration: Duration, seen: Seq<ChannelStatus>)
    ensures
        DelayModel::fresh(duration).timers(seen) == if seen.len() == 0 {
            0nat
        } else {
            1nat
        },
    decreases seen.len(),
{
    let start = DelayModel::fresh(duration);
    if seen.len() == 1 {
        assert(start.after(seen.drop_last()) == start);
        assert(start.timers(seen.drop_last()) == 0);
    } else if seen.len() >= 2 {
        lemma_delay_orders_one_timer(duration, seen.drop_last());
        lemma_delay_stays_armed(start, seen.drop_last());
    }
}

/// A delay of any duration answers `Pending` to every poll made before its
/// timer has fired, that is to its first poll and to every later poll that
/// finds the channel empty; the poll that then finds the notification
/// answers `Ready(Ok(()))`.
pub proof fn lemma_delay_pending_until_notified(duration: Duration, seen: Seq<ChannelStatus>)
    requires
        seen.len() >= 1,
        forall|i: int| 1 <= i < seen.len() ==> seen[i] == ChannelStatus::Empty,
    ensures
        DelayModel::fresh(duration).pendings(seen) == seen.len(),
        DelayModel::fresh(duration).after(seen).poll(ChannelStatus::Notified).turn.result
            == PollResult::<Result<(), ErrorKind>>::Ready(Ok(())),
    decreases seen.len(),
{
    let start = DelayModel::fresh(duration);
    lemma_delay_stays_armed(start, seen);
    if seen.len() == 1 {
        assert(start.after(seen.drop_last()) == start);
        assert(start.pendings(seen.drop_last()) == 0);
    } else {
        let shorter = seen.drop_last();
        assert forall|i: int| 1 <= i < shorter.len() implies shorter[i]
            == ChannelStatus::Empty by {
            assert(shorter[i] == seen[i]);
        }
        lemma_delay_pending_until_notified(duration, shorter);
        lemma_delay_stays_armed(start, shorter);
    }
}

/// A poll answers `Pending` exactly when a wait begins with it (it ordered
/// a timer) or goes on (the delay in flight found its channel empty). A
/// mere change of state never shows as `Pending`. And a poll answers
/// `Ready` exactly when it leaves the sequencer finished.
pub proof fn lemma_pending_is_a_real_wait(start: SequencerModel, observed: ChannelStatus)
    requires
        !(start is Finished),
    ensures
        start.poll(observed).turn.result is Pending <==> (start.poll(observed).turn.timer is Some
            || (start.waiting() && observed == ChannelStatus::Empty)),
        start.poll(observed).turn.result is Ready <==> start.poll(observed).next is Finished,
        !(start.poll(observed).next is Finished) ==> start.poll(observed).next.waiting(),
{
}

/// The first poll of a sequencer enters the first wait in the same turn:
/// it orders the first timer and answers `Pending`, whatever it is told of
/// channels, and no second delay exists yet.
pub proof fn lemma_first_poll_enters_step_one(
    duration_one: Duration,
    duration_two: Duration,
    observed: ChannelStatus,
)
    ensures
        ({
            let start = SequencerModel::Initial { duration_one, duration_two };
            let first = start.poll(observed);
            &&& first.next == (SequencerModel::WaitingStepOne {
                delay: DelayModel { duration: duration_one, armed: true },
                duration_two,
            })
            &&& first.turn.result is Pending
            &&& first.turn.timer == Some(duration_one)
        }),
{
}

/// A sequencer whose polls find each timer fired answers `Pending` twice,
/// once for each wait, and then `Ready(Ok(()))`: the first poll orders the
/// first timer, the second orders the second, the third finishes.
pub proof fn lemma_two_pendings_then_ready(
    duration_one: Duration,
    duration_two: Duration,
    observed: ChannelStatus,
)
    ensures
        ({
            let start = SequencerModel::Initial { duration_one, duration_two };
            let first = start.poll(observed);
            let second = first.next.poll(ChannelStatus::Notified);
            let third = second.next.poll(ChannelStatus::Notified);
            &&& first.turn.result is Pending
            &&& first.turn.timer == Some(duration_one)
            &&& second.turn.result is Pending
            &&& second.turn.timer == Some(duration_two)
            &&& second.next == (SequencerModel::WaitingStepTwo {
                delay: DelayModel { duration: duration_two, armed: true },
            })
            &&& third.turn.result == PollResult::<Result<(), ErrorKind>>::Ready(Ok(()))
            &&& third.turn.timer is None
            &&& third.next is Finished
        }),
{
}

/// A finished sequencer stays finished, so a run that a sequencer admits
/// admits each of its beginnings.
pub proof fn lemma_admits_shorter(start: SequencerModel, seen: Seq<ChannelStatus>)
    requires
        start.admits(seen),
        seen.len() >= 1,
    ensures
        start.admits(seen.drop_last()),
{
}

/// What a run without a closed channel does to a waiting sequencer.
///
/// With `n` the number of polls that found a notification: `n` is at most
/// the number of waits left, and the sequencer is finished exactly when it
/// is that number; every poll that found the channel empty answered
/// `Pending`, and beyond those only the poll that began the second wait
/// did, which is also the only one that ordered a timer.
pub proof fn lemma_waiting_run(start: SequencerModel, seen: Seq<ChannelStatus>)
    requires
        start.waiting(),
        start.admits(seen),
        occurrences(seen, ChannelStatus::Closed) == 0,
    ensures
        seen.len() == occurrences(seen, ChannelStatus::Notified) + occurrences(
            seen,
            ChannelStatus::Empty,
        ),
        occurrences(seen, ChannelStatus::Notified) <= start.rank(),
        start.after(seen).rank() + occurrences(seen, ChannelStatus::Notified) == start.rank(),
        !(start.after(seen) is Finished) ==> start.after(seen).waiting(),
        start.timers(seen) == if start is WaitingStepOne && occurrences(
            seen,
            ChannelStatus::Notified,
        ) >= 1 {
            1nat
        } else {
            0nat
        },
        start.pendings(seen) == occurrences(seen, ChannelStatus::Empty) + start.timers(seen),
        start.after(seen) is Finished ==> seen.len() >= 1 && start.after(seen.drop_last()).poll(
            seen.last(),
        ).turn.result == PollResult::<Result<(), ErrorKind>>::Ready(Ok(())),
    decreases seen.len(),
{
    if seen.len() >= 1 {
        let shorter = seen.drop_last();
        lemma_admits_shorter(start, seen);
        lemma_waiting_run(start, shorter);
        lemma_pending_is_a_real_wait(start.after(shorter), seen.last());
    }
}

/// A sequencer that is polled from `Initial` until it is finished, and
/// whose delays both complete, answers `Pending` exactly twice beyond the
/// polls that found a channel still empty, orders exactly two timers, and
/// ends with `Ready(Ok(()))`.
///
/// `first` is what the first poll is told, which it ignores; `later` is
/// what the polls after it see.
pub proof fn lemma_two_pendings_per_run(
    duration_one: Duration,
    duration_two: Duration,
    first: ChannelStatus,
    later: Seq<ChannelStatus>,
)
    requires
        occurrences(later, ChannelStatus::Closed) == 0,
        (SequencerModel::Initial { duration_one, duration_two }).poll(first).next.admits(later),
        (SequencerModel::Initial { duration_one, duration_two }).poll(first).next.after(
            later,
        ) is Finished,
    ensures
        ({
            let entered = (SequencerModel::Initial { duration_one, duration_two }).poll(first);
            &&& entered.turn.result is Pending
            &&& 1 + entered.next.pendings(later) == 2 + occurrences(later, ChannelStatus::Empty)
            &&& 1 + entered.next.timers(later) == 2
            &&& occurrences(later, ChannelStatus::Notified) == 2
            &&& later.len() >= 2
            &&& entered.next.after(later.drop_last()).poll(later.last()).turn.result
                == PollResult::<Result<(), ErrorKind>>::Ready(Ok(()))
        }),
{
    let entered = (SequencerModel::Initial { duration_one, duration_two }).poll(first);
    lemma_first_poll_enters_step_one(duration_one, duration_two, first);
    lemma_waiting_run(entered.next, later);
}

/// An error of the first delay ends the sequence with that error: the
/// sequencer is finished, no timer is ordered, and no second delay ever
/// exists.
pub proof fn lemma_first_failure_is_final(
    delay: DelayModel,
    duration_two: Duration,
    observed: ChannelStatus,
    error: ErrorKind,
)
    requires
        delay.poll(observed).turn.result == PollResult::<Result<(), ErrorKind>>::Ready(
            Err(error),
        ),
    ensures
        ({
            let turn = (SequencerModel::WaitingStepOne { delay, duration_two }).poll(observed);
            &&& turn.turn.result == PollResult::<Result<(), ErrorKind>>::Ready(Err(error))
            &&& turn.turn.timer is None
            &&& turn.next is Finished
        }),
{
}

/// Over a whole life that ends with an error of the first delay, the
/// sequencer orders one timer only, the first: every poll but the last
/// answered `Pending`, and the last answered the error.
pub proof fn lemma_first_failure_orders_one_timer(
    duration_one: Duration,
    duration_two: Duration,
    first: ChannelStatus,
    waits: Seq<ChannelStatus>,
)
    requires
        occurrences(waits, ChannelStatus::Empty) == waits.len(),
    ensures
        ({
            let entered = (SequencerModel::Initial { duration_one, duration_two }).poll(first);
            let last = entered.next.after(waits).poll(ChannelStatus::Closed);
            &&& entered.turn.timer == Some(duration_one)
            &&& entered.next.timers(waits) == 0
            &&& entered.next.pendings(waits) == waits.len()
            &&& last.turn.result == PollResult::<Result<(), ErrorKind>>::Ready(
                Err(ErrorKind::ChannelClosed),
            )
            &&& last.turn.timer is None
            &&& last.next is Finished
        }),
{
    let entered = (SequencerModel::Initial { duration_one, duration_two }).poll(first);
    lemma_first_poll_enters_step_one(duration_one, duration_two, first);
    lemma_only_empty(waits);
    lemma_empty_run_changes_nothing(entered.next, waits);
    lemma_waiting_run(entered.next, waits);
}

/// An error of the second delay ends the sequence with that error. The
/// answer is that one `Ready`; the sequencer does not go back to the first
/// wait and orders no timer.
pub proof fn lemma_second_failure_is_final(
    delay: DelayModel,
    observed: ChannelStatus,
    error: ErrorKind,
)
    requires
        delay.poll(observed).turn.result == PollResult::<Result<(), ErrorKind>>::Ready(
            Err(error),
        ),
    ensures
        ({
            let turn = (SequencerModel::WaitingStepTwo { delay }).poll(observed);
            &&& turn.turn.result == PollResult::<Result<(), ErrorKind>>::Ready(Err(error))
            &&& turn.turn.timer is None
            &&& turn.next is Finished
        }),
{
}

/// A run in which every status is `Empty` holds no other status.
pub proof fn lemma_only_empty(seen: Seq<ChannelStatus>)
    requires
        occurrences(seen, ChannelStatus::Empty) == seen.len(),
    ensures
        occurrences(seen, ChannelStatus::Notified) == 0,
        occurrences(seen, ChannelStatus::Closed) == 0,
    decreases seen.len(),
{
    if seen.len() >= 1 {
        lemma_occurrences_bound(seen.drop_last(), ChannelStatus::Empty);
        lemma_only_empty(seen.drop_last());
    }
}

/// A status occurs in a run at most as often as the run is long.
pub proof fn lemma_occurrences_bound(seen: Seq<ChannelStatus>, status: ChannelStatus)
    ensures
        occurrences(seen, status) <= seen.len(),
    decreases seen.len(),
{
    if seen.len() >= 1 {
        lemma_occurrences_bound(seen.drop_last(), status);
    }
}

/// Polls that find the channel empty leave a waiting sequencer as it is.
pub proof fn lemma_empty_run_changes_nothing(start: SequencerModel, seen: Seq<ChannelStatus>)
    requires
        start.waiting(),
        occurrences(seen, ChannelStatus::Empty) == seen.len(),
    ensures
        start.after(seen) == start,
        start.admits(seen),
    decreases seen.len(),
{
    if seen.len() >= 1 {
        lemma_occurrences_bound(seen.drop_last(), ChannelStatus::Empty);
        lemma_empty_run_changes_nothing(start, seen.drop_last());
    }
}

} // verus!

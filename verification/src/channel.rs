//! The one-shot notification channel, taken from `std::sync::mpsc`.
//!
//! Everything in this file is believed, not proved: the two channel ends are
//! opaque to the verifier, and the two functions below make the calls into
//! the standard library.

use std::sync::mpsc::{Receiver, Sender};
use vstd::prelude::*;
use crate::outcome::ChannelStatus;

verus! {

/// `std::sync::mpsc::Receiver`, the end of a channel that a poll looks at.
/// Nothing is said of what it holds.
#[verifier::external_type_specification]
#[verifier::external_body]
#[verifier::reject_recursive_types(T)]
pub struct ExReceiver<T>(Receiver<T>);

/// `std::sync::mpsc::Sender`, the end of a channel that a timer sends on.
/// Nothing is said of what it holds.
#[verifier::external_type_specification]
#[verifier::external_body]
#[verifier::reject_recursive_types(T)]
pub struct ExSender<T>(Sender<T>);

/// Calls `std::sync::mpsc::channel` and returns the two ends of a new
/// channel. The contract claims nothing of them.
#[verifier::external_body]
pub(crate) fn open_channel() -> (ends: (Sender<()>, Receiver<()>)) {
    std::sync::mpsc::channel()
}

/// Calls `Receiver::try_recv`, which returns at once, and names what it
/// found: a unit that was sent, an empty channel whose sender lives, or a
/// channel whose sender is gone. Which of the three comes back depends on
/// what the holder of the sender has done by now, so the contract promises
/// none of them.
#[verifier::external_body]
pub(crate) fn try_receive(receiver: &Receiver<()>) -> (status: ChannelStatus) {
    match receiver.try_recv() {
        Ok(()) => ChannelStatus::Notified,
        Err(std::sync::mpsc::TryRecvError::Empty) => ChannelStatus::Empty,
        Err(std::sync::mpsc::TryRecvError::Disconnected) => ChannelStatus::Closed,
    }
}

} // verus!

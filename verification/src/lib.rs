//! A poll-driven delay and a two-step sequencer built on it.
//!
//! Nothing in this crate blocks, sleeps or starts a thread. A poll answers
//! at once with a [`outcome::PollResult`] and, when a wait has to begin, with
//! a [`delay::TimerOrder`] that the caller carries out: wait for the ordered
//! duration, send one unit on the order's sender, then wake whoever polled.

pub mod outcome;
pub mod channel;
pub mod delay;
pub mod sequencer;
pub mod laws;

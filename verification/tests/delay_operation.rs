use std::time::Duration;

use delay_steps::delay::DelayOperation;
use delay_steps::outcome::{ChannelStatus, ErrorKind, PollResult};

#[test]
fn new_delay_has_no_channel_and_keeps_its_duration() {
    let op = DelayOperation::new(Duration::from_secs(2));
    assert!(!op.is_armed());
    assert_eq!(op.duration(), Duration::from_secs(2));
    assert_eq!(op.observe(), ChannelStatus::Empty);
}

#[test]
fn first_poll_is_pending_and_orders_the_timer() {
    let mut op = DelayOperation::new(Duration::from_millis(1500));
    let step = op.poll();
    assert_eq!(step.result, PollResult::Pending);
    let order = step.timer.expect("the first poll orders the timer");
    assert_eq!(order.duration(), Duration::from_millis(1500));
    assert!(op.is_armed());
    assert_eq!(op.duration(), Duration::from_millis(1500));
}

#[test]
fn repoll_before_the_timer_fires_is_pending_and_orders_nothing() {
    let mut op = DelayOperation::new(Duration::from_secs(1));
    let first = op.poll();
    let _order = first.timer.expect("the first poll orders the timer");
    for _ in 0..5 {
        let again = op.poll();
        assert_eq!(again.result, PollResult::Pending);
        assert!(again.timer.is_none());
        assert!(op.is_armed());
    }
}

#[test]
fn poll_after_the_timer_fired_is_ready_ok() {
    let mut op = DelayOperation::new(Duration::from_secs(1));
    let order = op.poll().timer.expect("the first poll orders the timer");
    let (duration, sender) = order.into_parts();
    assert_eq!(duration, Duration::from_secs(1));
    assert_eq!(op.observe(), ChannelStatus::Empty);
    sender.send(()).expect("the operation keeps the receiving end");
    let step = op.poll();
    assert_eq!(step.result, PollResult::Ready(Ok(())));
    assert!(step.timer.is_none());
}

#[test]
fn observe_sees_the_notification() {
    let mut op = DelayOperation::new(Duration::from_secs(1));
    let order = op.poll().timer.expect("the first poll orders the timer");
    let (_, sender) = order.into_parts();
    sender.send(()).expect("the operation keeps the receiving end");
    assert_eq!(op.observe(), ChannelStatus::Notified);
}

#[test]
fn dropped_order_fails_the_delay_with_channel_closed() {
    let mut op = DelayOperation::new(Duration::from_secs(1));
    let order = op.poll().timer.expect("the first poll orders the timer");
    drop(order);
    assert_eq!(op.observe(), ChannelStatus::Closed);
    let step = op.poll();
    assert_eq!(step.result, PollResult::Ready(Err(ErrorKind::ChannelClosed)));
    assert!(step.timer.is_none());
}

#[test]
fn zero_duration_delay_still_waits_for_its_timer() {
    let mut op = DelayOperation::new(Duration::from_secs(0));
    let first = op.poll();
    assert_eq!(first.result, PollResult::Pending);
    let order = first.timer.expect("the first poll orders the timer");
    assert_eq!(order.duration(), Duration::ZERO);
    assert_eq!(op.poll().result, PollResult::Pending);
    let (_, sender) = order.into_parts();
    sender.send(()).expect("the operation keeps the receiving end");
    assert_eq!(op.poll().result, PollResult::Ready(Ok(())));
}

#[test]
fn advance_ignores_the_status_on_the_first_poll() {
    for status in [ChannelStatus::Notified, ChannelStatus::Empty, ChannelStatus::Closed] {
        let mut op = DelayOperation::new(Duration::from_secs(4));
        let step = op.advance(status);
        assert_eq!(step.result, PollResult::Pending);
        assert_eq!(step.timer.map(|order| order.duration()), Some(Duration::from_secs(4)));
        assert!(op.is_armed());
    }
}

#[test]
fn advance_answers_by_the_status_once_armed() {
    let mut op = DelayOperation::new(Duration::from_secs(4));
    let _order = op.advance(ChannelStatus::Empty).timer;
    let empty = op.advance(ChannelStatus::Empty);
    assert_eq!(empty.result, PollResult::Pending);
    assert!(empty.timer.is_none());
    let notified = op.advance(ChannelStatus::Notified);
    assert_eq!(notified.result, PollResult::Ready(Ok(())));
    assert!(notified.timer.is_none());
    let closed = op.advance(ChannelStatus::Closed);
    assert_eq!(closed.result, PollResult::Ready(Err(ErrorKind::ChannelClosed)));
    assert!(closed.timer.is_none());
    assert!(op.is_armed());
    assert_eq!(op.duration(), Duration::from_secs(4));
}

#[test]
fn a_delay_orders_one_timer_over_many_polls() {
    let mut op = DelayOperation::new(Duration::from_secs(1));
    let mut orders = Vec::new();
    for _ in 0..10 {
        if let Some(order) = op.poll().timer {
            orders.push(order);
        }
    }
    assert_eq!(orders.len(), 1);
}

#[test]
fn resolve_maps_each_status() {
    assert_eq!(ChannelStatus::Notified.resolve(), PollResult::Ready(Ok(())));
    assert_eq!(ChannelStatus::Empty.resolve(), PollResult::Pending);
    assert_eq!(
        ChannelStatus::Closed.resolve(),
        PollResult::Ready(Err(ErrorKind::ChannelClosed))
    );
}

#[test]
fn poll_result_knows_its_variant() {
    let pending: PollResult<Result<(), ErrorKind>> = PollResult::Pending;
    assert!(pending.is_pending());
    assert!(!pending.is_ready());
    let ready: PollResult<Result<(), ErrorKind>> = PollResult::Ready(Ok(()));
    assert!(ready.is_ready());
    assert!(!ready.is_pending());
}

#[test]
fn channel_closed_describes_itself() {
    assert_eq!(ErrorKind::ChannelClosed.description(), "Disconnected");
}

use unix_connect::connect::{Action, Failure, LoopPoint, Marker, Step, UnixStreamConnect, Wake, CONNECT_TIMEOUT_SECS};
use unix_connect::delay_drop::DelayDrop;
use unix_connect::errno::{classify_first, classify_retry, ErrnoCodes, RetryOutcome};
use unix_connect::registration::{Interrupt, Registration};

const TASK: u64 = 7;

fn in_progress() -> Result<(), Option<i32>> {
    Err(Some(libc::EINPROGRESS))
}

/// Subscribes and, once the wake is taken care of, ends the subscription.
fn subscribed(c: &mut UnixStreamConnect, reg: &mut Registration, task: u64) -> Wake {
    let before = c.can_drop.tokens;
    let (wake, token) = c.subscribe(reg, task);
    assert!(!c.can_drop.can_drop());
    c.end_subscribe(token);
    assert_eq!(c.can_drop.tokens, before);
    wake
}

/// Drives a fresh object up to its first suspension.
fn parked(c: &mut UnixStreamConnect, reg: &mut Registration) {
    assert_eq!(c.is_connected(in_progress()), Ok(false));
    assert_eq!(c.done(reg, Step::Enter), Action::Connect);
    assert_eq!(c.done(reg, Step::Replied(in_progress())), Action::Suspend);
    assert_eq!(subscribed(c, reg, TASK), Wake::Park);
    assert_eq!(reg.waiter, Some(TASK));
}

#[test]
fn synchronous_connect_finishes_without_suspending() {
    let mut c = UnixStreamConnect::new();
    let mut reg = Registration::new(3);
    assert_eq!(c.is_connected(Ok(())), Ok(true));
    assert_eq!(c.marker, Marker::Connected);
    assert_eq!(c.done(&mut reg, Step::Enter), Action::Finish);
    assert_eq!(c.suspensions, 0);
    assert_eq!(c.point, LoopPoint::Finished);
    assert_eq!(reg, Registration::new(3));
}

#[test]
fn one_suspension_then_already_connected() {
    let mut c = UnixStreamConnect::new();
    let mut reg = Registration::new(3);
    parked(&mut c, &mut reg);
    assert_eq!(reg.signal_ready(), Some(TASK));
    assert_eq!(c.done(&mut reg, Step::Resumed), Action::Connect);
    assert!(!reg.ready);
    assert_eq!(c.done(&mut reg, Step::Replied(Err(Some(libc::EISCONN)))), Action::Finish);
    assert_eq!(c.suspensions, 1);
    assert_eq!(c.marker, Marker::Connected);
}

#[test]
fn silence_until_the_timer_gives_a_timeout() {
    assert_eq!(CONNECT_TIMEOUT_SECS, 10);
    let mut c = UnixStreamConnect::new();
    let mut reg = Registration::new(3);
    parked(&mut c, &mut reg);
    assert_eq!(reg.signal_timeout(), Some(TASK));
    assert_eq!(reg.interrupt, Some(Interrupt::TimedOut));
    assert_eq!(c.done(&mut reg, Step::Resumed), Action::Fail(Failure::TimedOut));
    assert_eq!(reg.interrupt, None);
}

#[test]
fn cancel_while_parked_fails_as_canceled() {
    let mut c = UnixStreamConnect::new();
    let mut reg = Registration::new(3);
    parked(&mut c, &mut reg);
    assert!(reg.cancel_linked);
    assert_eq!(reg.request_cancel(), Some(TASK));
    assert_eq!(c.done(&mut reg, Step::Resumed), Action::Fail(Failure::Canceled));
    assert_eq!(reg.waiter, None);
    assert!(!reg.cancel_linked);
    assert!(c.can_drop.can_drop());
}

#[test]
fn ready_between_clear_and_swap_retries_at_once() {
    let mut c = UnixStreamConnect::new();
    let mut reg = Registration::new(3);
    assert_eq!(c.done(&mut reg, Step::Enter), Action::Connect);
    assert_eq!(reg.signal_ready(), None);
    assert_eq!(c.done(&mut reg, Step::Replied(in_progress())), Action::Connect);
    assert_eq!(c.suspensions, 0);
    assert_eq!(c.point, LoopPoint::Connecting);
}

#[test]
fn cancel_before_subscribe_is_not_lost() {
    let mut c = UnixStreamConnect::new();
    let mut reg = Registration::new(3);
    assert_eq!(c.done(&mut reg, Step::Enter), Action::Connect);
    assert_eq!(c.done(&mut reg, Step::Replied(in_progress())), Action::Suspend);
    assert_eq!(reg.request_cancel(), None);
    assert_eq!(subscribed(&mut c, &mut reg, TASK), Wake::Reschedule(TASK));
    assert_eq!(reg.waiter, None);
    assert_eq!(c.done(&mut reg, Step::Resumed), Action::Fail(Failure::Canceled));
}

#[test]
fn ready_before_subscribe_reschedules() {
    let mut c = UnixStreamConnect::new();
    let mut reg = Registration::new(3);
    assert_eq!(c.done(&mut reg, Step::Enter), Action::Connect);
    assert_eq!(c.done(&mut reg, Step::Replied(in_progress())), Action::Suspend);
    assert_eq!(reg.signal_ready(), None);
    assert_eq!(subscribed(&mut c, &mut reg, TASK), Wake::Reschedule(TASK));
    assert_eq!(reg.waiter, None);
    assert!(!reg.cancel_linked);
    assert_eq!(c.done(&mut reg, Step::Resumed), Action::Connect);
}

#[test]
fn a_parked_task_is_resumed_once() {
    let mut c = UnixStreamConnect::new();
    let mut reg = Registration::new(3);
    parked(&mut c, &mut reg);
    assert_eq!(reg.signal_ready(), Some(TASK));
    assert_eq!(reg.signal_timeout(), None);
    assert_eq!(reg.signal_ready(), None);
    assert_eq!(reg.request_cancel(), None);
    assert_eq!(reg.interrupt, None);
}

#[test]
fn no_signal_leaves_the_task_parked() {
    let mut c = UnixStreamConnect::new();
    let mut reg = Registration::new(3);
    parked(&mut c, &mut reg);
    assert_eq!(reg.collect(), None);
    reg.clear_ready();
    assert!(!reg.swap_ready());
    assert_eq!(reg.waiter, Some(TASK));
}

#[test]
fn many_pending_rounds_then_already_connected() {
    let mut c = UnixStreamConnect::new();
    let mut reg = Registration::new(3);
    assert_eq!(c.done(&mut reg, Step::Enter), Action::Connect);
    for _ in 0..3 {
        assert_eq!(c.done(&mut reg, Step::Replied(Err(Some(libc::EALREADY)))), Action::Suspend);
        assert_eq!(subscribed(&mut c, &mut reg, TASK), Wake::Park);
        assert_eq!(reg.signal_ready(), Some(TASK));
        assert_eq!(c.done(&mut reg, Step::Resumed), Action::Connect);
    }
    assert_eq!(c.done(&mut reg, Step::Replied(Err(Some(libc::EISCONN)))), Action::Finish);
    assert_eq!(c.suspensions, 3);
}

#[test]
fn retry_success_finishes() {
    let mut c = UnixStreamConnect::new();
    let mut reg = Registration::new(3);
    assert_eq!(c.done(&mut reg, Step::Enter), Action::Connect);
    assert_eq!(c.done(&mut reg, Step::Replied(Ok(()))), Action::Finish);
}

#[test]
fn other_errors_are_fatal() {
    let mut c = UnixStreamConnect::new();
    let mut reg = Registration::new(3);
    assert_eq!(c.done(&mut reg, Step::Enter), Action::Connect);
    assert_eq!(
        c.done(&mut reg, Step::Replied(Err(Some(libc::ECONNREFUSED)))),
        Action::Fail(Failure::Os(Some(libc::ECONNREFUSED)))
    );
    assert_eq!(c.suspensions, 0);
    let mut d = UnixStreamConnect::new();
    assert_eq!(d.done(&mut reg, Step::Enter), Action::Connect);
    assert_eq!(d.done(&mut reg, Step::Replied(Err(None))), Action::Fail(Failure::Os(None)));
}

#[test]
fn first_attempt_errors() {
    let mut c = UnixStreamConnect::new();
    assert_eq!(c.is_connected(Err(Some(libc::ENOENT))), Err(Some(libc::ENOENT)));
    assert_eq!(c.marker, Marker::NotAttempted);
    assert_eq!(c.is_connected(Err(Some(libc::EALREADY))), Err(Some(libc::EALREADY)));
    assert_eq!(c.is_connected(Err(None)), Err(None));
    assert_eq!(c.is_connected(in_progress()), Ok(false));
    assert_eq!(c.marker, Marker::InProgress);
}

#[test]
fn target_codes_are_the_os_numbers() {
    let c = UnixStreamConnect::new();
    assert_eq!(c.codes.in_progress, libc::EINPROGRESS);
    assert_eq!(c.codes.already, libc::EALREADY);
    assert_eq!(c.codes.is_connected, libc::EISCONN);
}

#[test]
fn classification_by_given_codes() {
    let codes = ErrnoCodes { in_progress: 1, already: 2, is_connected: 3 };
    assert_eq!(classify_first(&codes, Ok(())), Ok(true));
    assert_eq!(classify_first(&codes, Err(Some(1))), Ok(false));
    assert_eq!(classify_first(&codes, Err(Some(3))), Err(Some(3)));
    assert_eq!(classify_retry(&codes, Ok(())), RetryOutcome::Connected);
    assert_eq!(classify_retry(&codes, Err(Some(1))), RetryOutcome::Pending);
    assert_eq!(classify_retry(&codes, Err(Some(2))), RetryOutcome::Pending);
    assert_eq!(classify_retry(&codes, Err(Some(3))), RetryOutcome::Connected);
    assert_eq!(classify_retry(&codes, Err(Some(4))), RetryOutcome::Fatal(Some(4)));
    assert_eq!(classify_retry(&codes, Err(None)), RetryOutcome::Fatal(None));
}

#[test]
fn delay_tokens_hold_back_teardown() {
    let mut g = DelayDrop::new();
    assert!(g.can_drop());
    let a = g.delay_drop();
    let b = g.delay_drop();
    assert!(!g.can_drop());
    g.release(a);
    assert!(!g.can_drop());
    g.release(b);
    assert!(g.can_drop());
    assert_eq!(g.tokens, 0);
}

#[test]
fn subscribe_returns_the_gate_as_it_was() {
    let mut c = UnixStreamConnect::new();
    let mut reg = Registration::new(3);
    parked(&mut c, &mut reg);
    assert_eq!(c.can_drop.tokens, 0);
}

#[test]
fn connected_marker_survives_a_later_in_progress_answer() {
    let mut c = UnixStreamConnect::new();
    assert_eq!(c.is_connected(Ok(())), Ok(true));
    assert_eq!(c.is_connected(in_progress()), Ok(false));
    assert_eq!(c.marker, Marker::Connected);
    assert_eq!(c.is_connected(Err(Some(libc::EISCONN))), Err(Some(libc::EISCONN)));
    assert_eq!(c.marker, Marker::Connected);
}

#[test]
fn teardown_waits_while_a_subscription_holds_its_token() {
    let mut c = UnixStreamConnect::new();
    let mut reg = Registration::new(3);
    assert_eq!(c.done(&mut reg, Step::Enter), Action::Connect);
    assert_eq!(c.done(&mut reg, Step::Replied(in_progress())), Action::Suspend);
    let (wake, token) = c.subscribe(&mut reg, TASK);
    assert_eq!(wake, Wake::Park);
    assert!(!c.can_drop.can_drop());
    assert_eq!(reg.signal_ready(), Some(TASK));
    assert_eq!(c.done(&mut reg, Step::Resumed), Action::Connect);
    assert!(!c.can_drop.can_drop());
    c.end_subscribe(token);
    assert!(c.can_drop.can_drop());
}

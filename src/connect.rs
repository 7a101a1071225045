//! The non-blocking connect state machine. The object makes no system call
//! and never suspends by itself: each step says what the caller must do next
//! (issue `connect`, suspend, finish or fail) and is told what came of it.
use vstd::prelude::*;

use crate::delay_drop::{teardown_allowed, DelayDrop, DropToken};
use crate::errno::{
    classify_first, classify_retry, first_outcome, retry_outcome, target_codes, ConnectReply,
    ErrnoCodes, RetryOutcome,
};
use crate::registration::{cancel_waiter, on_collect, Interrupt, Registration};

verus! {

/// Seconds after which a parked connect is woken with a timeout.
pub const CONNECT_TIMEOUT_SECS: u64 = 10;

/// How far the connection has come.
#[derive(Clone, Copy, Debug, PartialEq, Eq, Structural)]
pub enum Marker {
    NotAttempted,
    InProgress,
    Connected,
}

/// Where the completion loop stands.
#[derive(Clone, Copy, Debug, PartialEq, Eq, Structural)]
pub enum LoopPoint {
    /// `done` has not been entered yet.
    Entry,
    /// `connect` was re-issued; its answer is awaited.
    Connecting,
    /// The task is suspended.
    Parked,
    /// The loop returned.
    Finished,
}

/// Why the completion loop gave up.
#[derive(Clone, Copy, Debug, PartialEq, Eq, Structural)]
pub enum Failure {
    /// A fatal OS error, with its raw number when it had one.
    Os(Option<i32>),
    TimedOut,
    Canceled,
}

/// What the caller of [`UnixStreamConnect::done`] reports.
#[derive(Clone, Copy, Debug, PartialEq, Eq)]
pub enum Step {
    /// The loop is entered.
    Enter,
    /// The answer of the `connect` call that the last step asked for.
    Replied(ConnectReply),
    /// The task was resumed after a suspension.
    Resumed,
}

/// What the caller of [`UnixStreamConnect::done`] must do next.
#[derive(Clone, Copy, Debug, PartialEq, Eq, Structural)]
pub enum Action {
    /// Hand the socket and its registration over to the stream.
    Finish,
    /// Return the error.
    Fail(Failure),
    /// Issue `connect` again and report the answer.
    Connect,
    /// Suspend the task with this object as its event source.
    Suspend,
}

/// What [`UnixStreamConnect::subscribe`] leaves the scheduler to do.
#[derive(Clone, Copy, Debug, PartialEq, Eq, Structural)]
pub enum Wake {
    /// Make the task with this handle runnable immediately.
    Reschedule(u64),
    /// Leave it parked until the delivery side wakes it.
    Park,
}

/// The connect object: the completion marker, the position in the loop and
/// the delay-drop guard; the socket and its registration stay with the caller.
#[derive(Debug)]
pub struct UnixStreamConnect {
    pub codes: ErrnoCodes,
    pub marker: Marker,
    pub point: LoopPoint,
    pub can_drop: DelayDrop,
    /// How many times the loop has suspended the task.
    pub suspensions: u64,
}

pub open spec fn failure_of(i: Interrupt) -> Failure {
    match i {
        Interrupt::TimedOut => Failure::TimedOut,
        Interrupt::Canceled => Failure::Canceled,
    }
}

pub open spec fn saturating_inc(n: u64) -> u64 {
    if n < u64::MAX {
        (n + 1) as u64
    } else {
        n
    }
}

/// The first `connect`: its reading, and the marker it leaves. A connected
/// marker stays connected whatever the OS answers.
pub open spec fn first_step(c: UnixStreamConnect, reply: ConnectReply) -> (UnixStreamConnect, Result<bool, Option<i32>>) {
    let r = first_outcome(c.codes, reply);
    let marker = match r {
        Ok(true) => Marker::Connected,
        Ok(false) => if c.marker == Marker::Connected {
            c.marker
        } else {
            Marker::InProgress
        },
        Err(_) => c.marker,
    };
    (UnixStreamConnect { marker, ..c }, r)
}

/// The top of the completion loop: fail on a pending wakeup error, else clear
/// the readiness flag and ask for a `connect`.
pub open spec fn loop_top(c: UnixStreamConnect, r: Registration) -> (UnixStreamConnect, Registration, Action) {
    let (r1, pending) = on_collect(r);
    match pending {
        Some(i) => (UnixStreamConnect { point: LoopPoint::Finished, ..c }, r1, Action::Fail(failure_of(i))),
        None => (UnixStreamConnect { point: LoopPoint::Connecting, ..c }, Registration { ready: false, ..r1 }, Action::Connect),
    }
}

/// One step of the completion loop.
pub open spec fn done_step(c: UnixStreamConnect, r: Registration, step: Step) -> (UnixStreamConnect, Registration, Action) {
    match step {
        Step::Enter => {
            if c.marker == Marker::Connected {
                (UnixStreamConnect { point: LoopPoint::Finished, ..c }, r, Action::Finish)
            } else {
                loop_top(c, r)
            }
        },
        Step::Replied(reply) => match retry_outcome(c.codes, reply) {
            RetryOutcome::Connected => (
                UnixStreamConnect { marker: Marker::Connected, point: LoopPoint::Finished, ..c },
                r,
                Action::Finish,
            ),
            RetryOutcome::Fatal(e) => (UnixStreamConnect { point: LoopPoint::Finished, ..c }, r, Action::Fail(Failure::Os(e))),
            RetryOutcome::Pending => {
                if r.ready {
                    loop_top(c, Registration { ready: false, ..r })
                } else {
                    (
                        UnixStreamConnect { point: LoopPoint::Parked, suspensions: saturating_inc(c.suspensions), ..c },
                        r,
                        Action::Suspend,
                    )
                }
            },
        },
        Step::Resumed => loop_top(c, r),
    }
}

/// What subscribing `task` does to the registration, and what it leaves to
/// the scheduler.
pub open spec fn subscribe_effect(r: Registration, task: u64) -> (Registration, Wake) {
    let parked = Registration { waiter: Some(task), ..r };
    if parked.ready {
        (Registration { waiter: None, ..parked }, Wake::Reschedule(task))
    } else {
        let linked = Registration { cancel_linked: true, ..parked };
        if linked.cancel_requested {
            (cancel_waiter(linked).0, Wake::Reschedule(task))
        } else {
            (linked, Wake::Park)
        }
    }
}

impl UnixStreamConnect {
    /// Well formed: the error numbers are distinct.
    pub open spec fn wf(self) -> bool {
        self.codes.wf()
    }

    /// Whether `step` is what the loop waits for at its current point.
    pub open spec fn accepts(self, step: Step) -> bool {
        match step {
            Step::Enter => self.point == LoopPoint::Entry,
            Step::Replied(_) => self.point == LoopPoint::Connecting,
            Step::Resumed => self.point == LoopPoint::Parked,
        }
    }

    /// A connect object for a socket that was set non-blocking and
    /// registered; no `connect` has been issued yet.
    pub fn new() -> (r: Self)
        ensures
            r.wf(),
            r.can_drop.tokens == 0,
            r.marker == Marker::NotAttempted,
            r.point == LoopPoint::Entry,
            r.suspensions == 0,
    {
        UnixStreamConnect {
            codes: target_codes(),
            marker: Marker::NotAttempted,
            point: LoopPoint::Entry,
            can_drop: DelayDrop::new(),
            suspensions: 0,
        }
    }

    /// Reads the answer to the first `connect`: `Ok(true)` when connected,
    /// `Ok(false)` when it is in progress, the error otherwise.
    pub fn is_connected(&mut self, reply: ConnectReply) -> (r: Result<bool, Option<i32>>)
        requires
            old(self).wf(),
        ensures
            (*final(self), r) == first_step(*old(self), reply),
    {
        let r = classify_first(&self.codes, reply);
        match r {
            Ok(true) => self.marker = Marker::Connected,
            Ok(false) => match self.marker {
                Marker::Connected => {},
                _ => self.marker = Marker::InProgress,
            },
            Err(_) => {},
        }
        r
    }

    fn loop_top(&mut self, reg: &mut Registration) -> (act: Action)
        requires
            old(self).wf(),
        ensures
            (*final(self), *final(reg), act) == loop_top(*old(self), *old(reg)),
    {
        match reg.collect() {
            Some(i) => {
                self.point = LoopPoint::Finished;
                Action::Fail(
                    match i {
                        Interrupt::TimedOut => Failure::TimedOut,
                        Interrupt::Canceled => Failure::Canceled,
                    },
                )
            },
            None => {
                reg.clear_ready();
                self.point = LoopPoint::Connecting;
                Action::Connect
            },
        }
    }

    /// One step of the completion loop: the caller reports `step` and gets
    /// the next action, until `Finish` or `Fail`.
    pub fn done(&mut self, reg: &mut Registration, step: Step) -> (act: Action)
        requires
            old(self).wf(),
            old(self).accepts(step),
        ensures
            (*final(self), *final(reg), act) == done_step(*old(self), *old(reg), step),
            final(self).wf(),
    {
        match step {
            Step::Enter => match self.marker {
                Marker::Connected => {
                    self.point = LoopPoint::Finished;
                    Action::Finish
                },
                _ => self.loop_top(reg),
            },
            Step::Replied(reply) => match classify_retry(&self.codes, reply) {
                RetryOutcome::Connected => {
                    self.marker = Marker::Connected;
                    self.point = LoopPoint::Finished;
                    Action::Finish
                },
                RetryOutcome::Fatal(e) => {
                    self.point = LoopPoint::Finished;
                    Action::Fail(Failure::Os(e))
                },
                RetryOutcome::Pending => {
                    if reg.swap_ready() {
                        self.loop_top(reg)
                    } else {
                        self.point = LoopPoint::Parked;
                        if self.suspensions < u64::MAX {
                            self.suspensions = self.suspensions + 1;
                        }
                        Action::Suspend
                    }
                },
            },
            Step::Resumed => self.loop_top(reg),
        }
    }

    /// The event source of a suspension: parks `task` on the registration,
    /// unless readiness or a cancellation has already come, in which case the
    /// task is handed back to be run at once. The caller arms the timer of
    /// `CONNECT_TIMEOUT_SECS` for the registration before this call. The
    /// returned delay token holds back teardown until the caller, done with
    /// the wake, gives it to `end_subscribe`.
    pub fn subscribe(&mut self, reg: &mut Registration, task: u64) -> (w: (Wake, DropToken))
        requires
            old(self).wf(),
            old(self).can_drop.tokens < u64::MAX,
        ensures
            (*final(reg), w.0) == subscribe_effect(*old(reg), task),
            *final(self) == (UnixStreamConnect {
                can_drop: DelayDrop { tokens: (old(self).can_drop.tokens + 1) as u64 },
                ..*old(self)
            }),
            !teardown_allowed(final(self).can_drop),
    {
        let token = self.can_drop.delay_drop();
        reg.install_waiter(task);
        let w = if reg.ready {
            match reg.take_waiter() {
                Some(t) => Wake::Reschedule(t),
                None => Wake::Park,
            }
        } else {
            reg.link_cancel();
            if reg.cancel_requested {
                match reg.wake_canceled() {
                    Some(t) => Wake::Reschedule(t),
                    None => Wake::Park,
                }
            } else {
                Wake::Park
            }
        };
        (w, token)
    }

    /// Ends a subscription: gives back the delay token that `subscribe`
    /// handed out.
    pub fn end_subscribe(&mut self, t: DropToken)
        requires
            old(self).can_drop.tokens > 0,
        ensures
            *final(self) == (UnixStreamConnect {
                can_drop: DelayDrop { tokens: (old(self).can_drop.tokens - 1) as u64 },
                ..*old(self)
            }),
    {
        self.can_drop.release(t);
    }
}

} // verus!

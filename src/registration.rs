//! The readiness registration record: the state that the task waiting on a
//! descriptor shares with the event-delivery side. Every method is one atomic
//! step of that record.
use vstd::prelude::*;

verus! {

/// Why a parked task was woken other than by readiness.
#[derive(Clone, Copy, Debug, PartialEq, Eq, Structural)]
pub enum Interrupt {
    TimedOut,
    Canceled,
}

/// Registration of one descriptor with the selector, together with the
/// waiting task's cancellation slot and its pending wakeup error.
#[derive(Clone, Copy, Debug, PartialEq, Eq, Structural)]
pub struct Registration {
    /// The registered OS descriptor.
    pub fd: i32,
    /// Set by the delivery side on an I/O event, cleared by the task.
    pub ready: bool,
    /// The handle of the task parked on this descriptor, if any.
    pub waiter: Option<u64>,
    /// The task has been asked to cancel.
    pub cancel_requested: bool,
    /// The task's cancellation slot points at this registration.
    pub cancel_linked: bool,
    /// The error that a timeout or a cancellation left for the task.
    pub interrupt: Option<Interrupt>,
}

/// A fresh registration of `fd`.
pub open spec fn registered(fd: i32) -> Registration {
    Registration {
        fd,
        ready: false,
        waiter: None,
        cancel_requested: false,
        cancel_linked: false,
        interrupt: None,
    }
}

/// The delivery side reports an event: the flag is set and the parked task,
/// if any, is taken out of the slot to be scheduled.
pub open spec fn on_ready(r: Registration) -> (Registration, Option<u64>) {
    (Registration { ready: true, waiter: None, ..r }, r.waiter)
}

/// The timer fires: a parked task is taken out with a timeout error.
pub open spec fn on_timeout(r: Registration) -> (Registration, Option<u64>) {
    match r.waiter {
        Some(t) => (Registration { waiter: None, interrupt: Some(Interrupt::TimedOut), ..r }, Some(t)),
        None => (r, None),
    }
}

/// A parked task, reachable through the cancellation link, is taken out
/// with a cancellation error.
pub open spec fn cancel_waiter(r: Registration) -> (Registration, Option<u64>) {
    match r.waiter {
        Some(t) => (
            Registration { waiter: None, cancel_linked: false, interrupt: Some(Interrupt::Canceled), ..r },
            Some(t),
        ),
        None => (Registration { cancel_linked: false, ..r }, None),
    }
}

/// A cancellation request: the slot is marked, and a parked task reachable
/// through the link is woken.
pub open spec fn on_cancel(r: Registration) -> (Registration, Option<u64>) {
    let marked = Registration { cancel_requested: true, ..r };
    if r.cancel_linked {
        cancel_waiter(marked)
    } else {
        (marked, None)
    }
}

/// The check at the top of the completion loop: a pending wakeup error is
/// taken, else a requested cancellation is reported.
pub open spec fn on_collect(r: Registration) -> (Registration, Option<Interrupt>) {
    match r.interrupt {
        Some(i) => (Registration { interrupt: None, ..r }, Some(i)),
        None => (r, if r.cancel_requested { Some(Interrupt::Canceled) } else { None }),
    }
}

impl Registration {
    pub fn new(fd: i32) -> (r: Self)
        ensures
            r == registered(fd),
    {
        Registration {
            fd,
            ready: false,
            waiter: None,
            cancel_requested: false,
            cancel_linked: false,
            interrupt: None,
        }
    }

    /// Clears the readiness flag.
    pub fn clear_ready(&mut self)
        ensures
            *final(self) == (Registration { ready: false, ..*old(self) }),
    {
        self.ready = false;
    }

    /// Clears the readiness flag and tells whether it was set.
    pub fn swap_ready(&mut self) -> (was: bool)
        ensures
            was == old(self).ready,
            *final(self) == (Registration { ready: false, ..*old(self) }),
    {
        let was = self.ready;
        self.ready = false;
        was
    }

    /// Delivery side: an I/O event arrived. Returns the task to schedule.
    pub fn signal_ready(&mut self) -> (woken: Option<u64>)
        ensures
            (*final(self), woken) == on_ready(*old(self)),
    {
        let woken = self.waiter;
        self.ready = true;
        self.waiter = None;
        woken
    }

    /// Delivery side: the timer armed for this registration fired. Returns
    /// the task to schedule.
    pub fn signal_timeout(&mut self) -> (woken: Option<u64>)
        ensures
            (*final(self), woken) == on_timeout(*old(self)),
    {
        match self.waiter {
            Some(t) => {
                self.waiter = None;
                self.interrupt = Some(Interrupt::TimedOut);
                Some(t)
            },
            None => None,
        }
    }

    /// Task side, while subscribing: parks `task` in the slot, replacing any
    /// earlier occupant.
    pub fn install_waiter(&mut self, task: u64)
        ensures
            *final(self) == (Registration { waiter: Some(task), ..*old(self) }),
    {
        self.waiter = Some(task);
    }

    /// Takes the parked task out of the slot.
    pub fn take_waiter(&mut self) -> (t: Option<u64>)
        ensures
            t == old(self).waiter,
            *final(self) == (Registration { waiter: None, ..*old(self) }),
    {
        let t = self.waiter;
        self.waiter = None;
        t
    }

    /// Points the task's cancellation slot at this registration.
    pub fn link_cancel(&mut self)
        ensures
            *final(self) == (Registration { cancel_linked: true, ..*old(self) }),
    {
        self.cancel_linked = true;
    }

    /// Takes a parked task out through the cancellation link.
    pub(crate) fn wake_canceled(&mut self) -> (woken: Option<u64>)
        ensures
            (*final(self), woken) == cancel_waiter(*old(self)),
    {
        self.cancel_linked = false;
        match self.waiter {
            Some(t) => {
                self.waiter = None;
                self.interrupt = Some(Interrupt::Canceled);
                Some(t)
            },
            None => None,
        }
    }

    /// Scheduler side: the task was asked to cancel. Returns the task to
    /// schedule.
    pub fn request_cancel(&mut self) -> (woken: Option<u64>)
        ensures
            (*final(self), woken) == on_cancel(*old(self)),
    {
        self.cancel_requested = true;
        if self.cancel_linked {
            self.wake_canceled()
        } else {
            None
        }
    }

    /// Task side, at the top of the completion loop: the error that a
    /// wakeup left, if any.
    pub fn collect(&mut self) -> (pending: Option<Interrupt>)
        ensures
            (*final(self), pending) == on_collect(*old(self)),
    {
        match self.interrupt {
            Some(i) => {
                self.interrupt = None;
                Some(i)
            },
            None => {
                if self.cancel_requested {
                    Some(Interrupt::Canceled)
                } else {
                    None
                }
            },
        }
    }
}

} // verus!

//! Properties of the protocol that hold over every interleaving of the task's
//! steps with the delivery side's events.
use vstd::prelude::*;

use crate::connect::{
    done_step, first_step, loop_top, subscribe_effect, Action, Failure, LoopPoint, Marker, Step,
    UnixStreamConnect, Wake,
};
use crate::delay_drop::{teardown_allowed, DelayDrop};
use crate::errno::{retry_outcome, ConnectReply, RetryOutcome};
use crate::registration::{on_cancel, on_collect, on_ready, on_timeout, Interrupt, Registration};

verus! {

/// One atomic operation on a registration, from either side.
#[derive(Clone, Copy, Debug, PartialEq, Eq, Structural)]
pub enum SharedOp {
    /// The delivery side reports an I/O event.
    Ready,
    /// The timer fires.
    Timeout,
    /// A cancellation is requested.
    Cancel,
    /// The task subscribes with this handle.
    Subscribe(u64),
    /// The task clears the readiness flag.
    Clear,
    /// The task swaps the readiness flag to false.
    Swap,
    /// The task collects a pending wakeup error.
    Collect,
}

/// The registration after `op`, and the task that `op` hands to the scheduler.
pub open spec fn apply(r: Registration, op: SharedOp) -> (Registration, Option<u64>) {
    match op {
        SharedOp::Ready => on_ready(r),
        SharedOp::Timeout => on_timeout(r),
        SharedOp::Cancel => on_cancel(r),
        SharedOp::Subscribe(t) => {
            let (r1, w) = subscribe_effect(r, t);
            (r1, match w {
                Wake::Reschedule(u) => Some(u),
                Wake::Park => None,
            })
        },
        SharedOp::Clear => (Registration { ready: false, ..r }, None),
        SharedOp::Swap => (Registration { ready: false, ..r }, None),
        SharedOp::Collect => (on_collect(r).0, None),
    }
}

/// The registration after all of `ops`, in order.
pub open spec fn run(r: Registration, ops: Seq<SharedOp>) -> Registration
    decreases ops.len(),
{
    if ops.len() == 0 {
        r
    } else {
        run(apply(r, ops[0]).0, ops.drop_first())
    }
}

/// How many times `ops` hand a task to the scheduler.
pub open spec fn resumes(r: Registration, ops: Seq<SharedOp>) -> nat
    decreases ops.len(),
{
    if ops.len() == 0 {
        0
    } else {
        let (r1, woken) = apply(r, ops[0]);
        (if woken is Some { 1nat } else { 0nat }) + resumes(r1, ops.drop_first())
    }
}

/// How many suspensions `ops` hold.
pub open spec fn subscriptions(ops: Seq<SharedOp>) -> nat
    decreases ops.len(),
{
    if ops.len() == 0 {
        0
    } else {
        (if ops[0] is Subscribe { 1nat } else { 0nat }) + subscriptions(ops.drop_first())
    }
}

/// Whether `op` is an event from outside the task.
pub open spec fn is_signal(op: SharedOp) -> bool {
    op is Ready || op is Timeout || op is Cancel
}

pub open spec fn parked(r: Registration) -> nat {
    if r.waiter is Some { 1 } else { 0 }
}

proof fn lemma_apply_resumes_parked(r: Registration, op: SharedOp)
    ensures
        (if apply(r, op).1 is Some { 1nat } else { 0nat }) + parked(apply(r, op).0)
            <= (if op is Subscribe { 1nat } else { 0nat }) + parked(r),
        apply(r, op).1 matches Some(t) ==> (r.waiter == Some(t) || op == SharedOp::Subscribe(t)),
{
}

/// A task is resumed at most once per suspension: over any interleaving of
/// both sides' operations, the tasks handed to the scheduler, plus the one
/// still parked, never outnumber the subscriptions (plus a task parked at
/// the start).
pub proof fn lemma_one_resume_per_suspension(r: Registration, ops: Seq<SharedOp>)
    ensures
        resumes(r, ops) + parked(run(r, ops)) <= subscriptions(ops) + parked(r),
    decreases ops.len(),
{
    if ops.len() > 0 {
        lemma_apply_resumes_parked(r, ops[0]);
        lemma_one_resume_per_suspension(apply(r, ops[0]).0, ops.drop_first());
    }
}

/// No spurious wakeup: without an I/O event, a timeout or a cancellation,
/// no operation of the task hands it back to the scheduler.
pub proof fn lemma_no_resume_without_signal(r: Registration, ops: Seq<SharedOp>)
    requires
        !r.ready,
        !r.cancel_requested,
        forall|i: int| 0 <= i < ops.len() ==> !is_signal(#[trigger] ops[i]),
    ensures
        resumes(r, ops) == 0,
    decreases ops.len(),
{
    if ops.len() > 0 {
        assert(!is_signal(ops[0]));
        let rest = ops.drop_first();
        assert forall|i: int| 0 <= i < rest.len() implies !is_signal(#[trigger] rest[i]) by {
            assert(rest[i] == ops[i + 1]);
        }
        lemma_no_resume_without_signal(apply(r, ops[0]).0, rest);
    }
}

/// A connect that completes at the first attempt finishes at loop entry,
/// without suspending and without touching the registration.
pub proof fn lemma_synchronous_connect_never_suspends(c: UnixStreamConnect, r: Registration)
    requires
        c.wf(),
        c.point == LoopPoint::Entry,
    ensures
        ({
            let (c1, first) = first_step(c, Ok(()));
            let (c2, r2, act) = done_step(c1, r, Step::Enter);
            &&& first == Ok::<bool, Option<i32>>(true)
            &&& act == Action::Finish
            &&& c2.suspensions == c.suspensions
            &&& r2 == r
        }),
{
}

/// The first `connect` never takes a connected object back: connected
/// afterwards exactly when connected before or the answer was a success.
pub proof fn lemma_connected_marker_is_kept(c: UnixStreamConnect, reply: ConnectReply)
    requires
        c.wf(),
    ensures
        ({
            let (c1, first) = first_step(c, reply);
            (c1.marker == Marker::Connected) <==> (c.marker == Marker::Connected || first == Ok::<bool, Option<i32>>(true))
        }),
{
}

/// No spurious completion: the loop finishes only on a marker that was
/// already connected at entry, or on a `connect` answer that says
/// connected; a resume alone never finishes it.
pub proof fn lemma_finish_only_when_connected(c: UnixStreamConnect, r: Registration, step: Step)
    requires
        c.wf(),
        c.accepts(step),
    ensures
        done_step(c, r, step).2 == Action::Finish ==> {
            ||| step == Step::Enter && c.marker == Marker::Connected
            ||| step matches Step::Replied(reply) && retry_outcome(c.codes, reply) == RetryOutcome::Connected
        },
        step == Step::Resumed ==> done_step(c, r, step).2 != Action::Finish,
{
}

/// "Already connected" on a retry finishes the loop, whatever came before.
pub proof fn lemma_already_connected_finishes(c: UnixStreamConnect, r: Registration)
    requires
        c.wf(),
        c.point == LoopPoint::Connecting,
    ensures
        ({
            let (c1, r1, act) = done_step(c, r, Step::Replied(Err(Some(c.codes.is_connected))));
            &&& act == Action::Finish
            &&& c1.marker == Marker::Connected
            &&& r1 == r
        }),
{
}

/// One pending round: the retry is still in progress, the task subscribes
/// and parks, readiness wakes it, and the loop asks for `connect` again.
pub open spec fn ready_round(c: UnixStreamConnect, r: Registration, reply: ConnectReply, task: u64) -> (UnixStreamConnect, Registration) {
    let (c1, r1, _a1) = done_step(c, r, Step::Replied(reply));
    let r2 = subscribe_effect(r1, task).0;
    let r3 = on_ready(r2).0;
    let (c4, r4, _a4) = done_step(c1, r3, Step::Resumed);
    (c4, r4)
}

/// `n` pending rounds in a row.
pub open spec fn ready_rounds(c: UnixStreamConnect, r: Registration, reply: ConnectReply, task: u64, n: nat) -> (UnixStreamConnect, Registration)
    decreases n,
{
    if n == 0 {
        (c, r)
    } else {
        let (c1, r1) = ready_rounds(c, r, reply, task, (n - 1) as nat);
        ready_round(c1, r1, reply, task)
    }
}

/// The state between rounds when no timeout or cancellation is in play.
pub open spec fn quiet_retry(c: UnixStreamConnect, r: Registration) -> bool {
    &&& c.wf()
    &&& c.point == LoopPoint::Connecting
    &&& !r.ready
    &&& !r.cancel_requested
    &&& r.interrupt is None
}

proof fn lemma_ready_rounds(c: UnixStreamConnect, r: Registration, reply: ConnectReply, task: u64, n: nat)
    requires
        quiet_retry(c, r),
        retry_outcome(c.codes, reply) == RetryOutcome::Pending,
        c.suspensions + n <= u64::MAX,
    ensures
        quiet_retry(ready_rounds(c, r, reply, task, n).0, ready_rounds(c, r, reply, task, n).1),
        ready_rounds(c, r, reply, task, n).0.codes == c.codes,
        ready_rounds(c, r, reply, task, n).0.suspensions == c.suspensions + n,
    decreases n,
{
    if n > 0 {
        lemma_ready_rounds(c, r, reply, task, (n - 1) as nat);
    }
}

/// "Already connected" finishes the loop after any number of pending rounds,
/// each of them one suspension woken by readiness.
pub proof fn lemma_already_connected_after_rounds(
    c: UnixStreamConnect,
    r: Registration,
    reply: ConnectReply,
    task: u64,
    n: nat,
)
    requires
        quiet_retry(c, r),
        retry_outcome(c.codes, reply) == RetryOutcome::Pending,
        c.suspensions + n <= u64::MAX,
    ensures
        ({
            let (cn, rn) = ready_rounds(c, r, reply, task, n);
            let (c_end, _r_end, act) = done_step(cn, rn, Step::Replied(Err(Some(c.codes.is_connected))));
            &&& act == Action::Finish
            &&& c_end.marker == Marker::Connected
            &&& c_end.suspensions == c.suspensions + n
        }),
{
    lemma_ready_rounds(c, r, reply, task, n);
}

/// No missed wakeup: when readiness arrives between the clear at the top of
/// the loop and the swap after a pending `connect`, the loop retries at once
/// instead of suspending.
pub proof fn lemma_ready_after_clear_retries(c: UnixStreamConnect, r: Registration, reply: ConnectReply)
    requires
        c.wf(),
        c.accepts(Step::Resumed) || c.accepts(Step::Enter),
        c.point == LoopPoint::Entry ==> c.marker != Marker::Connected,
        retry_outcome(c.codes, reply) == RetryOutcome::Pending,
    ensures
        ({
            let (c1, r1, top) = loop_top(c, r);
            top == Action::Connect ==> {
                let r2 = on_ready(r1).0;
                let (c3, r3, act) = done_step(c1, r2, Step::Replied(reply));
                &&& act != Action::Suspend
                &&& c3.suspensions == c.suspensions
                &&& (!r.cancel_requested ==> act == Action::Connect)
            }
        }),
{
}

/// No lost cancellation: a cancellation requested before `subscribe` hands
/// the task straight back, and the loop then fails as canceled.
pub proof fn lemma_cancel_before_subscribe_observed(c: UnixStreamConnect, r: Registration, task: u64)
    requires
        c.wf(),
        c.point == LoopPoint::Parked,
        r.cancel_requested,
    ensures
        ({
            let (r1, w) = subscribe_effect(r, task);
            let (c2, r2, act) = done_step(c, r1, Step::Resumed);
            &&& w == Wake::Reschedule(task)
            &&& r1.waiter is None
            &&& act is Fail
            &&& (r.interrupt != Some(Interrupt::TimedOut) ==> act == Action::Fail(Failure::Canceled))
        }),
{
}

/// The guard after `n` acquisitions.
pub open spec fn acquired(g: DelayDrop, n: nat) -> DelayDrop
    decreases n,
{
    if n == 0 {
        g
    } else {
        let h = acquired(g, (n - 1) as nat);
        DelayDrop { tokens: (h.tokens + 1) as u64 }
    }
}

/// The guard after `k` releases.
pub open spec fn released(g: DelayDrop, k: nat) -> DelayDrop
    decreases k,
{
    if k == 0 {
        g
    } else {
        let h = released(g, (k - 1) as nat);
        DelayDrop { tokens: (h.tokens - 1) as u64 }
    }
}

proof fn lemma_acquired_count(g: DelayDrop, n: nat)
    requires
        g.tokens + n <= u64::MAX,
    ensures
        acquired(g, n).tokens == g.tokens + n,
    decreases n,
{
    if n > 0 {
        lemma_acquired_count(g, (n - 1) as nat);
    }
}

proof fn lemma_released_count(g: DelayDrop, k: nat)
    requires
        k <= g.tokens,
    ensures
        released(g, k).tokens == g.tokens - k,
    decreases k,
{
    if k > 0 {
        lemma_released_count(g, (k - 1) as nat);
    }
}

/// No premature teardown: on a guard with no token out, after `n` tokens were
/// handed out and `k` of them taken back, teardown is allowed exactly when
/// all of them are back.
pub proof fn lemma_teardown_waits_for_tokens(g: DelayDrop, n: nat, k: nat)
    requires
        g.tokens == 0,
        n <= u64::MAX,
        k <= n,
    ensures
        teardown_allowed(released(acquired(g, n), k)) <==> k == n,
{
    lemma_acquired_count(g, n);
    lemma_released_count(acquired(g, n), k);
}

} // verus!

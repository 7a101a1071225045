//! How the answers of the OS `connect` call are read.
use vstd::prelude::*;

verus! {

/// What one `connect` call answered: `Ok(())` when the connection is
/// established, or the raw OS error number (`None` when the error carried none).
pub type ConnectReply = Result<(), Option<i32>>;

/// The three error numbers of the target that the connect protocol tells apart.
#[derive(Clone, Copy, Debug, PartialEq, Eq, Structural)]
pub struct ErrnoCodes {
    /// "operation now in progress"
    pub in_progress: i32,
    /// "operation already in progress"
    pub already: i32,
    /// "socket is already connected"
    pub is_connected: i32,
}

impl ErrnoCodes {
    /// The codes are distinct, as every target defines them.
    pub open spec fn wf(self) -> bool {
        &&& self.in_progress != self.already
        &&& self.in_progress != self.is_connected
        &&& self.already != self.is_connected
    }
}

/// Relies on libc's `EINPROGRESS`, `EALREADY` and `EISCONN` constants: three
/// distinct error numbers on every target that libc defines them for (their
/// values and signs differ between targets).
#[verifier::external_body]
pub(crate) fn target_codes() -> (r: ErrnoCodes)
    ensures
        r.in_progress != r.already && r.in_progress != r.is_connected
            && r.already != r.is_connected,
{
    ErrnoCodes { in_progress: libc::EINPROGRESS, already: libc::EALREADY, is_connected: libc::EISCONN }
}

/// How a re-issued `connect` is read inside the completion loop.
#[derive(Clone, Copy, Debug, PartialEq, Eq, Structural)]
pub enum RetryOutcome {
    /// Established ("already connected" counts as established).
    Connected,
    /// Still in progress, or already in progress: wait for readiness.
    Pending,
    /// Any other error: fatal, never retried.
    Fatal(Option<i32>),
}

/// The first attempt: `Ok(true)` when connected at once, `Ok(false)` when the
/// OS reports "in progress", the error itself otherwise.
pub open spec fn first_outcome(codes: ErrnoCodes, reply: ConnectReply) -> Result<bool, Option<i32>> {
    match reply {
        Ok(()) => Ok(true),
        Err(Some(e)) if e == codes.in_progress => Ok(false),
        Err(e) => Err(e),
    }
}

/// A retry: "in progress" and "already in progress" wait, "already connected"
/// and success finish, anything else is fatal.
pub open spec fn retry_outcome(codes: ErrnoCodes, reply: ConnectReply) -> RetryOutcome {
    match reply {
        Ok(()) => RetryOutcome::Connected,
        Err(Some(e)) if e == codes.is_connected => RetryOutcome::Connected,
        Err(Some(e)) if e == codes.in_progress || e == codes.already => RetryOutcome::Pending,
        Err(e) => RetryOutcome::Fatal(e),
    }
}

/// Reads the answer to the first `connect` call.
pub fn classify_first(codes: &ErrnoCodes, reply: ConnectReply) -> (r: Result<bool, Option<i32>>)
    ensures
        r == first_outcome(*codes, reply),
{
    match reply {
        Ok(()) => Ok(true),
        Err(Some(e)) => {
            if e == codes.in_progress {
                Ok(false)
            } else {
                Err(Some(e))
            }
        },
        Err(None) => Err(None),
    }
}

/// Reads the answer to a re-issued `connect` call.
pub fn classify_retry(codes: &ErrnoCodes, reply: ConnectReply) -> (r: RetryOutcome)
    ensures
        r == retry_outcome(*codes, reply),
{
    match reply {
        Ok(()) => RetryOutcome::Connected,
        Err(Some(e)) => {
            if e == codes.is_connected {
                RetryOutcome::Connected
            } else if e == codes.in_progress || e == codes.already {
                RetryOutcome::Pending
            } else {
                RetryOutcome::Fatal(Some(e))
            }
        },
        Err(None) => RetryOutcome::Fatal(None),
    }
}

} // verus!

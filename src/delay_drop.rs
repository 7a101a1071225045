//! A counting guard that holds back the teardown of a connect object while
//! the event-delivery side may still write into its registration.
use vstd::prelude::*;

verus! {

/// Proof of one outstanding delay; handed back to [`DelayDrop::release`].
pub struct DropToken {
    held: (),
}

/// The guard: the count of outstanding delay tokens.
#[derive(Debug)]
pub struct DelayDrop {
    pub tokens: u64,
}

/// Teardown may proceed only once every token is back.
pub open spec fn teardown_allowed(g: DelayDrop) -> bool {
    g.tokens == 0
}

impl DelayDrop {
    /// A guard with no outstanding token.
    pub fn new() -> (r: Self)
        ensures
            r.tokens == 0,
    {
        DelayDrop { tokens: 0 }
    }

    /// Hands out a delay token: teardown is held back until it is released.
    pub fn delay_drop(&mut self) -> (t: DropToken)
        requires
            old(self).tokens < u64::MAX,
        ensures
            final(self).tokens == old(self).tokens + 1,
    {
        self.tokens = self.tokens + 1;
        DropToken { held: () }
    }

    /// Takes a token back.
    pub fn release(&mut self, t: DropToken)
        requires
            old(self).tokens > 0,
        ensures
            final(self).tokens == old(self).tokens - 1,
    {
        let DropToken { held: _ } = t;
        self.tokens = self.tokens - 1;
    }

    /// Whether teardown may complete now; a caller that gets `false` waits
    /// and asks again.
    pub fn can_drop(&self) -> (r: bool)
        ensures
            r == teardown_allowed(*self),
    {
        self.tokens == 0
    }
}

} // verus!

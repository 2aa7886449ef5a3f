//! The cancellation signal: a one-shot, logically broadcast "stop" flag.
//!
//! This type is the flag itself: settable any number of times with the same
//! effect as once, never reset. The suspending side (many independent waiters
//! each seeing the same transition) lives with the driver; the scheduler
//! consumes the flag through this type and through the reported race
//! outcomes.

use vstd::prelude::*;

verus! {

/// The one-shot cancellation flag. `request` is idempotent and the flag is
/// never cleared during a run's lifetime.
#[verifier::ext_equal]
pub struct CancellationSignal {
    requested: bool,
}

impl CancellationSignal {
    /// Whether cancellation has been requested.
    pub closed spec fn is_requested(&self) -> bool {
        self.requested
    }

    /// The value a signal holds once a request has gone through, whatever it
    /// held before.
    pub closed spec fn after_request(self) -> CancellationSignal {
        CancellationSignal { requested: true }
    }

    pub fn new() -> (s: Self)
        ensures
            !s.is_requested(),
    {
        CancellationSignal { requested: false }
    }

    /// Request cancellation. Every later observation sees the cancelled
    /// state; requesting again changes nothing further.
    pub fn request(&mut self)
        ensures
            *final(self) == old(self).after_request(),
            final(self).is_requested(),
    {
        self.requested = true;
    }

    /// Observe the flag without consuming anything: any number of observers
    /// may ask, and all see the same state.
    pub fn observed(&self) -> (cancelled: bool)
        ensures
            cancelled == self.is_requested(),
    {
        self.requested
    }
}

/// Law: requesting cancellation is idempotent. Requesting on a signal that
/// has already seen a request leaves it exactly as it was, so any number of
/// requests has the observable effect of one.
pub proof fn lemma_request_idempotent(s: CancellationSignal)
    ensures
        s.after_request().after_request() == s.after_request(),
        s.is_requested() ==> s.after_request() == s,
{
    assert(s.after_request().after_request() =~= s.after_request());
    if s.is_requested() {
        assert(s.after_request() =~= s);
    }
}

} // verus!

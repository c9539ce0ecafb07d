//! Nonce discipline: each session numbers its frames with a strictly
//! increasing 64-bit counter. The receiver remembers the highest nonce it
//! has accepted and takes only larger ones, so its replay state is one value.

use vstd::prelude::*;

verus! {

/// Why a nonce was not issued or not accepted.
#[derive(Debug, Clone, Copy, PartialEq, Eq, Structural)]
pub enum NonceError {
    /// The counter has reached its largest value: the session must end and
    /// the client register again.
    Exhausted,
    /// The nonce is not above the highest one accepted so far.
    Replayed,
}

/// The largest value the counter may take; it is never issued itself.
pub const NONCE_LIMIT: u64 = 0xffff_ffff_ffff_ffff;

/// Sending side: hands out 1, 2, 3, ... under one MAC key.
pub struct NonceCounter {
    next: u64,
}

impl View for NonceCounter {
    /// The nonce that the next call of `generate` hands out.
    type V = u64;

    closed spec fn view(&self) -> u64 {
        self.next
    }
}

impl NonceCounter {
    /// A counter whose first nonce is 1.
    pub fn new() -> (r: NonceCounter)
        ensures
            r@ == 1,
    {
        NonceCounter { next: 1 }
    }

    /// A counter that resumes at `next`.
    pub fn starting_at(next: u64) -> (r: NonceCounter)
        ensures
            r@ == next,
    {
        NonceCounter { next }
    }

    /// The next nonce, or `Exhausted` once the counter has reached its
    /// limit; it never wraps round to a value already handed out.
    pub fn generate(&mut self) -> (r: Result<u64, NonceError>)
        ensures
            old(self)@ == NONCE_LIMIT ==> r == Err::<u64, NonceError>(NonceError::Exhausted)
                && final(self)@ == old(self)@,
            old(self)@ < NONCE_LIMIT ==> r == Ok::<u64, NonceError>(old(self)@)
                && final(self)@ == old(self)@ + 1,
    {
        if self.next == NONCE_LIMIT {
            Err(NonceError::Exhausted)
        } else {
            let n = self.next;
            self.next = self.next + 1;
            Ok(n)
        }
    }
}

/// Receiving side: the highest nonce accepted in this session, if any.
pub struct ReplayGuard {
    highest: Option<u64>,
}

impl View for ReplayGuard {
    type V = Option<u64>;

    closed spec fn view(&self) -> Option<u64> {
        self.highest
    }
}

/// Whether `nonce` may be accepted after the nonces summed up by `highest`.
pub open spec fn is_fresh(highest: Option<u64>, nonce: u64) -> bool {
    match highest {
        None => true,
        Some(h) => nonce > h,
    }
}

impl ReplayGuard {
    /// A guard that has accepted nothing yet.
    pub fn new() -> (r: ReplayGuard)
        ensures
            r@ is None,
    {
        ReplayGuard { highest: None }
    }

    /// Whether `nonce` would be accepted now; changes nothing.
    pub fn is_fresh(&self, nonce: u64) -> (r: bool)
        ensures
            r == is_fresh(self@, nonce),
    {
        match self.highest {
            None => true,
            Some(h) => nonce > h,
        }
    }

    /// Marks `nonce` as accepted. Every nonce up to it is refused from now on.
    pub fn record(&mut self, nonce: u64)
        requires
            is_fresh(old(self)@, nonce),
        ensures
            final(self)@ == Some(nonce),
    {
        self.highest = Some(nonce);
    }

    /// Checks and records `nonce` in one step: accepted nonces are recorded,
    /// refused ones leave the guard as it was.
    pub fn validate(&mut self, nonce: u64) -> (r: Result<(), NonceError>)
        ensures
            is_fresh(old(self)@, nonce) ==> r is Ok && final(self)@ == Some(nonce),
            !is_fresh(old(self)@, nonce) ==> r == Err::<(), NonceError>(NonceError::Replayed)
                && final(self)@ == old(self)@,
    {
        if self.is_fresh(nonce) {
            self.record(nonce);
            Ok(())
        } else {
            Err(NonceError::Replayed)
        }
    }
}

/// Once a nonce is accepted, it and every smaller nonce are refused.
pub proof fn lemma_accepted_nonce_not_fresh(highest: Option<u64>, nonce: u64, later: u64)
    requires
        is_fresh(highest, nonce),
        later <= nonce,
    ensures
        !is_fresh(Some(nonce), later),
{
}

} // verus!

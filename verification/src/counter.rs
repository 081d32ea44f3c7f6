//! The per-worker request counter.
//!
//! Each worker instance owns one counter and nobody else can reach it, so
//! it needs no synchronisation: exclusive access is what `&mut self` means.

use vstd::prelude::*;

verus! {

/// Counts the requests that one worker instance has handled.
///
/// The view is the number of requests handled so far.
pub struct RequestCounter {
    handled: usize,
}

impl View for RequestCounter {
    type V = nat;

    open spec fn view(&self) -> nat {
        self.spec_current() as nat
    }
}

/// The count that a counter shows once it has handled `requests` more
/// requests, starting from `start`.
pub open spec fn count_after(start: nat, requests: nat) -> nat
    decreases requests,
{
    if requests == 0 {
        start
    } else {
        count_after(start, (requests - 1) as nat) + 1
    }
}

impl RequestCounter {
    /// A counter that has handled nothing yet.
    pub fn new() -> (counter: Self)
        ensures
            counter@ == 0,
    {
        RequestCounter { handled: 0 }
    }

    /// The number of requests handled so far.
    pub closed spec fn spec_current(&self) -> usize {
        self.handled
    }

    /// The number of requests handled so far.
    #[verifier::when_used_as_spec(spec_current)]
    pub fn current(&self) -> (count: usize)
        ensures
            count == self.spec_current(),
            count == self@,
    {
        self.handled
    }

    /// Records one more request and returns the new count, which is the
    /// number of requests handled including this one.
    pub fn next(&mut self) -> (count: usize)
        requires
            old(self)@ < usize::MAX,
        ensures
            final(self)@ == count_after(old(self)@, 1),
            final(self)@ == old(self)@ + 1,
            count == final(self)@,
    {
        proof {
            reveal_with_fuel(count_after, 2);
        }
        self.handled = self.handled + 1;
        self.handled
    }
}

/// A count rises by exactly one with every request handled. After `n`
/// requests a counter shows `n` more than before, so a fresh counter
/// answers its first request with 1 and its `n`-th with `n`, each one more
/// than the request before it. No other counter enters into it.
pub proof fn lemma_count_rises_by_one(start: nat, n: nat)
    ensures
        count_after(start, n) == start + n,
        count_after(start, n + 1) == count_after(start, n) + 1,
        count_after(0, 1) == 1,
        count_after(0, n) == n,
    decreases n,
{
    reveal_with_fuel(count_after, 2);
    if n > 0 {
        lemma_count_rises_by_one(start, (n - 1) as nat);
        lemma_count_rises_by_one(0, (n - 1) as nat);
    }
}

} // verus!

//! Server identities: one small number per worker instance.
//!
//! The numbers come from a counter that all worker instances of a process
//! share. It is advanced by an atomic fetch-and-add and by nothing else, so
//! it needs no lock.

use std::sync::atomic::AtomicUsize;
use std::sync::atomic::Ordering;
use vstd::prelude::*;

verus! {

/// The source of server identities for one process.
///
/// Verus sees an atomic as a name for a place in memory and nothing more,
/// because any thread may change what is in it between two reads. What
/// [`ServerIdentity::allocate`] hands out is therefore described by
/// [`identity_of_call`], which goes by the order in which the calls reach
/// the counter.
pub struct ServerIdentity {
    next: AtomicUsize,
}

impl ServerIdentity {
    /// A source that has handed out nothing yet; its first identity is 0.
    pub fn new() -> (source: Self) {
        ServerIdentity { next: AtomicUsize::new(0) }
    }

    /// Hands out the next identity: the counter's value before this call
    /// added one to it. Safe to call from many threads at once.
    pub fn allocate(&self) -> (id: usize) {
        self.next.fetch_add(1, Ordering::SeqCst)
    }
}

/// The number of values that a `usize` can take.
pub open spec fn identity_space() -> nat {
    (usize::MAX + 1) as nat
}

/// The identity that a fetch-and-add counter starting at 0 hands to the
/// call that reaches it after `earlier` other calls. The counter wraps
/// round once it has run through every `usize`.
pub open spec fn identity_of_call(earlier: nat) -> usize {
    (earlier % identity_space()) as usize
}

/// The identities handed to the first `calls` calls.
pub open spec fn identities_issued(calls: nat) -> Set<usize> {
    Set::new(
        |id: usize|
            exists|earlier: nat| earlier < calls && #[trigger] identity_of_call(earlier) == id,
    )
}

/// Identities are unique and none is skipped. As long as the counter has
/// not wrapped round, that is for up to `usize::MAX + 1` calls, the call
/// that arrives after `earlier` others gets `earlier`. So any two calls get
/// different identities, and `calls` calls together get exactly the
/// numbers from 0 to `calls - 1`, in the order in which they reached the
/// counter.
pub proof fn lemma_identities_unique_and_dense(calls: nat)
    requires
        calls <= identity_space(),
    ensures
        forall|earlier: nat| earlier < calls ==> #[trigger] identity_of_call(earlier) == earlier,
        forall|a: nat, b: nat|
            a < calls && b < calls && a != b ==> #[trigger] identity_of_call(a)
                != #[trigger] identity_of_call(b),
        forall|id: usize| #[trigger] identities_issued(calls).contains(id) <==> id < calls,
{
    assert forall|earlier: nat| earlier < calls implies #[trigger] identity_of_call(earlier)
        == earlier by {
        vstd::arithmetic::div_mod::lemma_small_mod(earlier, identity_space());
    }
    assert forall|id: usize| #[trigger] identities_issued(calls).contains(id) <==> id < calls by {
        if id < calls {
            assert(identity_of_call(id as nat) == id);
        }
    }
}

} // verus!

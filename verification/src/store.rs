//! The message store: an ordered list of messages behind one lock.
//!
//! [`MessageList`] is the list itself, with exact contracts; it is what a
//! caller holds while it has the lock. [`MessageStore`] is the handle that
//! the worker instances share: each of its operations takes the lock, works
//! on the list and gives the lock back before it returns.

use std::ops::DerefMut;
use std::sync::Arc;
use std::sync::Mutex;
use std::sync::MutexGuard;
use std::sync::PoisonError;
use vstd::prelude::*;
use vstd::seq_lib::*;

use crate::error::RequestError;

verus! {

/// `std::sync::Mutex`, which Verus treats as opaque: nothing is known of
/// the value inside a lock until a guard hands it out.
#[verifier::external_type_specification]
#[verifier::external_body]
#[verifier::reject_recursive_types(T)]
pub struct ExMutex<T: ?Sized>(Mutex<T>);

/// `std::sync::MutexGuard`, opaque as well: holding one means holding the
/// lock, and dropping it gives the lock back.
#[verifier::external_type_specification]
#[verifier::external_body]
#[verifier::reject_recursive_types(T)]
pub struct ExMutexGuard<'a, T: ?Sized + 'a>(MutexGuard<'a, T>);

/// `std::sync::PoisonError`, the error of a lock whose holder panicked.
#[verifier::external_type_specification]
#[verifier::external_body]
#[verifier::reject_recursive_types(T)]
pub struct ExPoisonError<T>(PoisonError<T>);

/// `Mutex::lock` waits for the lock and returns a guard, or the poison
/// error if an earlier holder panicked. The value behind the guard is
/// whatever the last holder left there, so nothing is claimed of it.
///
/// A thread that asks for a lock it already holds never gets it. This
/// crate takes the store's lock through [`MessageStore::lock`] only; who
/// calls that asks for no lock while it holds the guard, and drops the
/// guard before it returns.
pub assume_specification<'a, T: ?Sized>[ Mutex::<T>::lock ](lock: &'a Mutex<T>) -> (result: Result<
    MutexGuard<'a, T>,
    PoisonError<MutexGuard<'a, T>>,
>);

/// `DerefMut::deref_mut` of a guard lends out the value that the lock
/// protects. Nothing is claimed of that value.
pub assume_specification<'a, T: ?Sized, 'g>[ <MutexGuard<'a, T> as DerefMut>::deref_mut ](
    guard: &'g mut MutexGuard<'a, T>,
) -> (value: &'g mut T);

/// `Arc::clone` on the store's handle: the copy points at the same lock as
/// the handle it was made from.
#[verifier::external_body]
fn clone_handle(handle: &Arc<Mutex<MessageList>>) -> (copy: Arc<Mutex<MessageList>>)
    ensures
        copy == *handle,
{
    Arc::clone(handle)
}

/// The list that a lock was made around: what `Mutex::new` was given when
/// it made `lock`. A lock is made once, so this never changes; it says
/// nothing of what the lock holds by now.
pub uninterp spec fn first_contents(lock: Mutex<MessageList>) -> Seq<Seq<char>>;

/// `Mutex::new` on a message list: a new lock, not held and not poisoned,
/// that was made around `list`.
#[verifier::external_body]
fn lock_around(list: MessageList) -> (lock: Mutex<MessageList>)
    ensures
        first_contents(lock) == list@,
{
    Mutex::new(list)
}

/// The messages posted so far, oldest first.
///
/// The view is the sequence of message texts.
pub struct MessageList {
    entries: Vec<String>,
}

impl View for MessageList {
    type V = Seq<Seq<char>>;

    closed spec fn view(&self) -> Seq<Seq<char>> {
        self.entries.deep_view()
    }
}

impl MessageList {
    /// The empty list.
    pub fn new() -> (list: Self)
        ensures
            list@ == Seq::<Seq<char>>::empty(),
    {
        MessageList { entries: Vec::new() }
    }

    /// The number of messages in the list.
    pub fn len(&self) -> (n: usize)
        ensures
            n == self@.len(),
    {
        self.entries.len()
    }

    /// A copy of the list as it stands, independent of later changes.
    pub fn snapshot(&self) -> (copy: Vec<String>)
        ensures
            copy.deep_view() == self@,
            copy.len() == self@.len(),
    {
        self.entries.clone()
    }

    /// Adds `message` at the end; what was there stays, in its order.
    pub fn append(&mut self, message: String)
        ensures
            final(self)@ == old(self)@.push(message@),
    {
        self.entries.push(message);
    }

    /// Removes every message.
    pub fn clear(&mut self)
        ensures
            final(self)@ == cleared(old(self)@),
            final(self)@ == Seq::<Seq<char>>::empty(),
    {
        self.entries.clear();
    }
}

/// The list that a `clear` leaves behind: the empty list, whatever `list`
/// held.
pub open spec fn cleared(list: Seq<Seq<char>>) -> Seq<Seq<char>> {
    Seq::empty()
}

/// The list that results when the messages of `posted` are appended to
/// `list` one after the other, first to last.
pub open spec fn after_appends(list: Seq<Seq<char>>, posted: Seq<Seq<char>>) -> Seq<Seq<char>>
    decreases posted.len(),
{
    if posted.len() == 0 {
        list
    } else {
        after_appends(list, posted.drop_last()).push(posted.last())
    }
}

/// Appending one by one is concatenation: the old messages stay in front,
/// in their order, and the new ones follow in the order of their arrival.
pub proof fn lemma_appends_concatenate(list: Seq<Seq<char>>, posted: Seq<Seq<char>>)
    ensures
        after_appends(list, posted) == list + posted,
    decreases posted.len(),
{
    if posted.len() > 0 {
        lemma_appends_concatenate(list, posted.drop_last());
        assert(list + posted =~= (list + posted.drop_last()).push(posted.last()));
    } else {
        assert(list + posted =~= list);
    }
}

/// No append is lost, whatever the interleaving. Let `calls` be the
/// messages of any number of `append` calls, made by any number of
/// workers. The lock lets them through one at a time, in some order
/// `arrival` of the same calls. An empty store then holds exactly as many
/// messages as there were calls, each message as often as it was posted,
/// and the list is `arrival` itself. A `clear` after them leaves nothing.
pub proof fn lemma_no_append_is_lost(calls: Seq<Seq<char>>, arrival: Seq<Seq<char>>)
    requires
        arrival.to_multiset() == calls.to_multiset(),
    ensures
        after_appends(Seq::empty(), arrival).len() == calls.len(),
        after_appends(Seq::empty(), arrival).to_multiset() == calls.to_multiset(),
        after_appends(Seq::empty(), arrival) == arrival,
        cleared(after_appends(Seq::empty(), arrival)).len() == 0,
{
    lemma_appends_concatenate(Seq::empty(), arrival);
    assert(Seq::<Seq<char>>::empty() + arrival =~= arrival);
    arrival.to_multiset_ensures();
    calls.to_multiset_ensures();
}

/// What asking for the lock came to: the guard if the lock was given, and
/// an internal failure if the lock is poisoned.
fn held_or_failed<'a>(
    asked: Result<MutexGuard<'a, MessageList>, PoisonError<MutexGuard<'a, MessageList>>>,
) -> (held: Result<MutexGuard<'a, MessageList>, RequestError>)
    ensures
        match asked {
            Ok(guard) => held == Ok::<MutexGuard<'a, MessageList>, RequestError>(guard),
            Err(_) => held == Err::<MutexGuard<'a, MessageList>, RequestError>(
                RequestError::InternalLockFailure,
            ),
        },
{
    match asked {
        Ok(guard) => Ok(guard),
        Err(_) => Err(RequestError::InternalLockFailure),
    }
}

/// A handle to the one list that all worker instances of a process share.
///
/// Every operation holds the lock for as long as it reads or changes the
/// list, and hands out copies only, never a reference into the list.
pub struct MessageStore {
    shared: Arc<Mutex<MessageList>>,
}

impl Clone for MessageStore {
    /// Another handle to the same list.
    fn clone(&self) -> (handle: Self)
        ensures
            handle.same_store(self),
            handle.started_with() == self.started_with(),
    {
        MessageStore { shared: clone_handle(&self.shared) }
    }
}

impl MessageStore {
    /// Whether `self` and `other` are handles to the same list.
    pub closed spec fn same_store(&self, other: &MessageStore) -> bool {
        self.shared == other.shared
    }

    /// The list that this store held when it was made. What it holds by
    /// now depends on what its handles have done since.
    pub closed spec fn started_with(&self) -> Seq<Seq<char>> {
        first_contents(*self.shared)
    }

    /// A new store, which starts with an empty list.
    pub fn new() -> (store: Self)
        ensures
            store.started_with() == Seq::<Seq<char>>::empty(),
    {
        MessageStore { shared: Arc::new(lock_around(MessageList::new())) }
    }

    /// Takes the lock. The guard gives the lock back when it is dropped.
    pub(crate) fn lock(&self) -> (held: Result<MutexGuard<'_, MessageList>, RequestError>)
        ensures
            held matches Err(e) ==> e == RequestError::InternalLockFailure,
    {
        held_or_failed(self.shared.lock())
    }

    /// A copy of the list as it stood at one moment while this call held
    /// the lock.
    pub fn snapshot(&self) -> (copy: Result<Vec<String>, RequestError>)
        ensures
            copy matches Err(e) ==> e == RequestError::InternalLockFailure,
    {
        match self.lock() {
            Ok(mut guard) => Ok(guard.deref_mut().snapshot()),
            Err(e) => Err(e),
        }
    }

    /// Adds `message` at the end of the list, in one step under the lock.
    pub fn append(&self, message: String) -> (done: Result<(), RequestError>)
        ensures
            done matches Err(e) ==> e == RequestError::InternalLockFailure,
    {
        match self.lock() {
            Ok(mut guard) => {
                guard.deref_mut().append(message);
                Ok(())
            },
            Err(e) => Err(e),
        }
    }

    /// Empties the list, in one step under the lock.
    pub fn clear(&self) -> (done: Result<(), RequestError>)
        ensures
            done matches Err(e) ==> e == RequestError::InternalLockFailure,
    {
        match self.lock() {
            Ok(mut guard) => {
                guard.deref_mut().clear();
                Ok(())
            },
            Err(e) => Err(e),
        }
    }
}

} // verus!

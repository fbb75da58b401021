//! The shared state store: one lock around the whole state of the player.

use crate::mpris::state::{MprisState, StateView};
use std::ops::Deref;
use std::sync::{LockResult, Mutex, MutexGuard, PoisonError};
use vstd::prelude::*;

verus! {

/// `std::sync::Mutex`: the lock with the value that it protects, never looked
/// into but through a guard.
#[verifier::external_type_specification]
#[verifier::external_body]
#[verifier::reject_recursive_types(T)]
pub struct ExMutex<T: ?Sized>(Mutex<T>);

/// `std::sync::MutexGuard`: the hold on a lock, which ends when the guard is
/// dropped.
#[verifier::external_type_specification]
#[verifier::external_body]
#[verifier::reject_recursive_types(T)]
pub struct ExMutexGuard<'a, T: ?Sized + 'a>(MutexGuard<'a, T>);

/// `std::sync::PoisonError`: the error of locking a poisoned lock.
#[verifier::external_type_specification]
#[verifier::external_body]
#[verifier::reject_recursive_types(T)]
pub struct ExPoisonError<T>(PoisonError<T>);

/// `Mutex::lock` waits for the lock and gives a guard that holds it until the
/// guard is dropped. It gives an error where an earlier holder panicked with
/// the lock held. Nothing is claimed of which of the two comes back: that is
/// the other holders' doing. A thread that already holds the lock must not
/// call it: it would wait for itself or panic. No contract can say who holds
/// a lock, so this stays a rule for the caller.
pub assume_specification<'a, T: ?Sized>[ Mutex::<T>::lock ](mutex: &'a Mutex<T>) -> LockResult<
    MutexGuard<'a, T>,
>;

/// The state that a guard protects, for as long as the guard is held: nobody
/// else writes it in that time, so it goes with the guard.
pub uninterp spec fn held_state(guard: MutexGuard<'_, MprisState>) -> StateView;

/// `MutexGuard::deref` gives the value that the guard protects. What is
/// claimed is that this value is the guard's own: the same for every look
/// through the same guard.
#[verifier::external_body]
fn protected<'a>(guard: &'a MutexGuard<'_, MprisState>) -> (state: &'a MprisState)
    ensures
        state@ == held_state(*guard),
{
    guard.deref()
}

/// The store's lock was poisoned: a holder panicked while it held the lock, so
/// the state may be half written. No answer is given from such a state.
#[derive(Debug, Clone, Copy, PartialEq, Eq, Structural)]
pub struct StorePoisoned;

/// The copy of the state that a hold on the store's lock gives: where the lock
/// was got, a state that agrees in every field with the one that the guard
/// protects, and the hold ends with the copy; where the lock was poisoned,
/// the error and no state.
pub fn copy_locked(
    locked: LockResult<MutexGuard<'_, MprisState>>,
) -> (copy: Result<MprisState, StorePoisoned>)
    ensures
        match locked {
            Ok(guard) => copy matches Ok(state) && state@ == held_state(guard),
            Err(_) => copy is Err,
        },
{
    match locked {
        Ok(guard) => Ok(protected(&guard).clone()),
        Err(_) => Err(StorePoisoned),
    }
}

/// A copy of the state, taken under the lock: the lock is held for the copy
/// and for nothing else. `Err` where the lock is poisoned.
///
/// A copy that is given agrees in every field with the state that one guard
/// protected: it is never put together from two states. Whether the lock is
/// poisoned, and which state the guard protects, depend on what the lock's
/// other holders did and are left open; [`copy_locked`] states the copy for
/// every answer of the lock.
///
/// A thread that holds the store's lock must let go of it before it calls
/// this.
pub fn read(store: &Mutex<MprisState>) -> (copy: Result<MprisState, StorePoisoned>)
    ensures
        copy matches Ok(state) ==> exists|guard: MutexGuard<'_, MprisState>|
            state@ == #[trigger] held_state(guard),
{
    copy_locked(store.lock())
}

} // verus!

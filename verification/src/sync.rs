//! The standard library's channel and lock, as far as this crate uses them.
//!
//! Nothing in this module is proved. The types are declared so that they can
//! stand in signatures and fields, and each operation is given the contract
//! that the rest of the crate relies on. A channel and a lock change under a
//! shared reference and at the hands of other threads, so what a call returns
//! is not a function of what it is given: the contracts below promise nothing
//! of it, and the proofs elsewhere hold for whatever comes back.

use std::sync::mpsc::{Receiver, RecvError, Sender, TryRecvError};
use std::sync::{Arc, Mutex, MutexGuard, PoisonError, TryLockError};
use vstd::prelude::*;

verus! {

/// `std::sync::mpsc::Sender`: the sending half of a channel. Opaque.
#[verifier::external_type_specification]
#[verifier::external_body]
#[verifier::reject_recursive_types(T)]
pub struct ExSender<T>(Sender<T>);

/// `std::sync::mpsc::Receiver`: the receiving half of a channel. Opaque.
#[verifier::external_type_specification]
#[verifier::external_body]
#[verifier::reject_recursive_types(T)]
pub struct ExReceiver<T>(Receiver<T>);

/// `std::sync::mpsc::RecvError`: the one failure of a blocking receive, a
/// unit struct. Declared with its shape, so that it can be built and compared.
#[verifier::external_type_specification]
pub struct ExRecvError(RecvError);

/// `std::sync::mpsc::TryRecvError`: the two failures of a non-blocking
/// receive, `Empty` and `Disconnected`. Declared with its variants.
#[verifier::external_type_specification]
pub struct ExTryRecvError(TryRecvError);

/// `std::sync::Mutex`. Opaque.
#[verifier::external_type_specification]
#[verifier::external_body]
#[verifier::reject_recursive_types(T)]
pub struct ExMutex<T: ?Sized>(Mutex<T>);

/// `std::sync::MutexGuard`: holds the lock until it is dropped. Opaque.
#[verifier::external_type_specification]
#[verifier::external_body]
#[verifier::reject_recursive_types(T)]
pub struct ExMutexGuard<'a, T: ?Sized + 'a>(MutexGuard<'a, T>);

/// `std::sync::PoisonError`: what a lock answers after a holder panicked.
/// Opaque.
#[verifier::external_type_specification]
#[verifier::external_body]
#[verifier::reject_recursive_types(T)]
pub struct ExPoisonError<T>(PoisonError<T>);

/// `std::sync::TryLockError`: the two failures of a non-blocking lock
/// attempt, `Poisoned` and `WouldBlock`. Declared with its variants.
#[verifier::external_type_specification]
#[verifier::reject_recursive_types(T)]
pub struct ExTryLockError<T>(TryLockError<T>);

/// `std::sync::mpsc::channel`: creates a queue and returns its two halves.
/// Nothing is claimed of them.
pub assume_specification<T>[ std::sync::mpsc::channel ]() -> (halves: (Sender<T>, Receiver<T>));

/// `Receiver::recv`: waits for the next message, or fails once every sender
/// is gone and the queue is drained. It returns only when one of the two has
/// happened. Nothing is claimed of what it returns.
pub assume_specification<T>[ Receiver::<T>::recv ](receiver: &Receiver<T>) -> (received: Result<
    T,
    RecvError,
>);

/// `Receiver::try_recv`: takes the next message if one is there, without
/// waiting. Nothing is claimed of what it returns.
pub assume_specification<T>[ Receiver::<T>::try_recv ](receiver: &Receiver<T>) -> (polled: Result<
    T,
    TryRecvError,
>);

/// `Mutex::new`: a new, unlocked lock around `value`. Nothing is claimed of
/// it.
pub assume_specification<T>[ Mutex::<T>::new ](value: T) -> (lock: Mutex<T>);

/// `Mutex::lock`: waits until the lock is free and takes it. Nothing is
/// claimed of the answer. The standard library leaves open what happens when
/// the calling thread holds this lock already (it may panic or never return),
/// and no contract can speak of that: callers must not hold a guard of `lock`.
pub assume_specification<'a, T: ?Sized>[ Mutex::<T>::lock ](lock: &'a Mutex<T>) -> (attempt: Result<
    MutexGuard<'a, T>,
    PoisonError<MutexGuard<'a, T>>,
>);

/// `Mutex::try_lock`: takes the lock if it is free, without waiting. Nothing
/// is claimed of the answer.
pub assume_specification<'a, T: ?Sized>[ Mutex::<T>::try_lock ](lock: &'a Mutex<T>) -> (attempt:
    Result<MutexGuard<'a, T>, TryLockError<MutexGuard<'a, T>>>);

/// `<MutexGuard as Deref>::deref`: the value that the held lock protects.
/// Nothing is claimed of it.
pub assume_specification<'a, 'b, T: ?Sized>[ <MutexGuard<'a, T> as std::ops::Deref>::deref ](
    guard: &'b MutexGuard<'a, T>,
) -> (target: &'b T);

/// `Arc::clone`: one more handle to the same allocation. The contract claims
/// that the new handle stands for the same value as the old one, which is how
/// Verus reads an `Arc` throughout: as the value it points to.
#[verifier::external_body]
pub(crate) fn share<T>(slot: &Arc<Mutex<Receiver<T>>>) -> (shared: Arc<Mutex<Receiver<T>>>)
    ensures
        shared == *slot,
{
    Arc::clone(slot)
}

} // verus!

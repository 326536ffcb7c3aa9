//! How a receive is settled once the lock has answered.
//!
//! A receive on a shared endpoint is two steps: ask for the lock, then ask
//! the queue. The first answer decides whether the second question is put at
//! all. The functions here take the lock's answer as a value, so the rule is
//! stated, and proved, for every answer that a lock can give.
//!
//! What a lock or a queue answers is not a function of what the call is
//! given: it depends on what other threads have done. The contracts
//! therefore speak of calls. `call_ensures(f, args, r)` reads "a call of `f`
//! on `args` returned `r`"; nothing but such a call establishes it, so a
//! contract that demands it can only be met by making the call and passing
//! on what came back.

use std::ops::Deref;
use std::sync::mpsc::{Receiver, RecvError, TryRecvError};
use std::sync::{MutexGuard, PoisonError, TryLockError};
use vstd::prelude::*;

verus! {

/// A non-blocking receive on the queue that `guard` protects returned
/// `polled`.
pub open spec fn polled_under<'a, T>(
    guard: MutexGuard<'a, Receiver<T>>,
    polled: Result<T, TryRecvError>,
) -> bool {
    exists|receiver: &Receiver<T>|
        #[trigger] call_ensures(<MutexGuard<'a, Receiver<T>> as Deref>::deref, (&guard,), receiver)
            && call_ensures(Receiver::<T>::try_recv, (receiver,), polled)
}

/// A blocking receive on the queue that `guard` protects returned
/// `received`.
pub open spec fn received_under<'a, T>(
    guard: MutexGuard<'a, Receiver<T>>,
    received: Result<T, RecvError>,
) -> bool {
    exists|receiver: &Receiver<T>|
        #[trigger] call_ensures(<MutexGuard<'a, Receiver<T>> as Deref>::deref, (&guard,), receiver)
            && call_ensures(Receiver::<T>::recv, (receiver,), received)
}

/// Whether `outcome` is what a non-blocking receive reports when the try for
/// the lock returned `attempt`.
///
/// * With the lock in hand, `outcome` is what one poll of the queue behind it
///   returned.
/// * A poisoned lock counts as a disconnected queue.
/// * A lock that another thread holds counts as an empty queue.
pub open spec fn settles_try_recv<'a, T>(
    attempt: Result<MutexGuard<'a, Receiver<T>>, TryLockError<MutexGuard<'a, Receiver<T>>>>,
    outcome: Result<T, TryRecvError>,
) -> bool {
    match attempt {
        Ok(guard) => polled_under(guard, outcome),
        Err(TryLockError::Poisoned(_)) => outcome == Err::<T, TryRecvError>(
            TryRecvError::Disconnected,
        ),
        Err(TryLockError::WouldBlock) => outcome == Err::<T, TryRecvError>(TryRecvError::Empty),
    }
}

/// Whether `outcome` is what a blocking receive reports when waiting for the
/// lock returned `attempt`.
///
/// * With the lock in hand, `outcome` is what one blocking receive on the
///   queue behind it returned.
/// * A poisoned lock counts as a disconnected queue.
pub open spec fn settles_recv<'a, T>(
    attempt: Result<MutexGuard<'a, Receiver<T>>, PoisonError<MutexGuard<'a, Receiver<T>>>>,
    outcome: Result<T, RecvError>,
) -> bool {
    match attempt {
        Ok(guard) => received_under(guard, outcome),
        Err(_) => outcome == Err::<T, RecvError>(RecvError),
    }
}

/// What one step of a message sequence yields for what the blocking receive
/// returned: the message, or the end of the sequence.
pub open spec fn yield_of<T>(received: Result<T, RecvError>) -> Option<T> {
    match received {
        Ok(message) => Some(message),
        Err(_) => None,
    }
}

/// Settles a non-blocking receive, given what the try for the lock returned.
///
/// With the lock in hand the queue is polled once and the lock is let go;
/// otherwise the queue is left alone.
pub fn try_recv_locked<'a, T>(
    attempt: Result<MutexGuard<'a, Receiver<T>>, TryLockError<MutexGuard<'a, Receiver<T>>>>,
) -> (outcome: Result<T, TryRecvError>)
    ensures
        settles_try_recv(attempt, outcome),
{
    match attempt {
        Ok(guard) => guard.try_recv(),
        Err(TryLockError::Poisoned(_)) => Err(TryRecvError::Disconnected),
        Err(TryLockError::WouldBlock) => Err(TryRecvError::Empty),
    }
}

/// Settles a blocking receive, given what waiting for the lock returned.
///
/// With the lock in hand the queue is asked once, which may block, and the
/// lock is let go; with a poisoned lock the queue is left alone.
pub fn recv_locked<'a, T>(
    attempt: Result<MutexGuard<'a, Receiver<T>>, PoisonError<MutexGuard<'a, Receiver<T>>>>,
) -> (outcome: Result<T, RecvError>)
    ensures
        settles_recv(attempt, outcome),
{
    match attempt {
        Ok(guard) => guard.recv(),
        Err(_) => Err(RecvError),
    }
}

/// One step of a message sequence, given what the blocking receive returned:
/// the message, or the end of the sequence exactly when the receive failed.
pub fn yielded<T>(received: Result<T, RecvError>) -> (item: Option<T>)
    ensures
        item == yield_of(received),
{
    received.ok()
}

} // verus!

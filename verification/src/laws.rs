//! What follows from the contracts of the endpoint, stated once and proved.
//!
//! Each law takes an outcome that a receive may return and says what must
//! have happened at the lock and at the queue for it to come out. None of
//! them assumes anything of the lock or the queue beyond what it names in its
//! `requires`.

use crate::receiver::{Iter, SharedReceiver};
use crate::settle::{polled_under, received_under, settles_recv, settles_try_recv, yield_of};
use std::sync::mpsc::{Receiver, RecvError, TryRecvError};
use std::sync::{MutexGuard, PoisonError, TryLockError};
use vstd::prelude::*;

verus! {

/// A non-blocking receive hands out no message of its own making: a message
/// comes out only when the lock was taken, and it is the one that a poll of
/// the queue behind the lock returned.
pub proof fn polled_message_is_from_queue<'a, T>(rx: &'a SharedReceiver<T>, message: T)
    requires
        rx.try_recv_returns(Ok(message)),
    ensures
        exists|guard: MutexGuard<'a, Receiver<T>>|
            rx.lock_tried(Ok(guard)) && #[trigger] polled_under(
                guard,
                Ok::<T, TryRecvError>(message),
            ),
{
}

/// A blocking receive hands out no message of its own making: a message
/// comes out only when the lock was taken, and it is the one that a receive
/// on the queue behind the lock returned.
pub proof fn received_message_is_from_queue<'a, T>(rx: &'a SharedReceiver<T>, message: T)
    requires
        rx.recv_returns(Ok(message)),
    ensures
        exists|guard: MutexGuard<'a, Receiver<T>>|
            rx.lock_awaited(Ok(guard)) && #[trigger] received_under(
                guard,
                Ok::<T, RecvError>(message),
            ),
{
}

/// A non-blocking receive reports `Empty` for one of two reasons only: the
/// lock was held by another thread, or the lock was taken and the queue
/// behind it answered `Empty`.
pub proof fn empty_has_a_cause<'a, T>(rx: &'a SharedReceiver<T>)
    requires
        rx.try_recv_returns(Err(TryRecvError::Empty)),
    ensures
        rx.lock_tried(Err(TryLockError::WouldBlock)) || exists|guard: MutexGuard<'a, Receiver<T>>|
            rx.lock_tried(Ok(guard)) && #[trigger] polled_under(
                guard,
                Err::<T, TryRecvError>(TryRecvError::Empty),
            ),
{
}

/// A non-blocking receive reports `Disconnected` for one of two reasons
/// only: the lock is poisoned, or the lock was taken and the queue behind it
/// answered `Disconnected`.
pub proof fn disconnected_has_a_cause<'a, T>(rx: &'a SharedReceiver<T>)
    requires
        rx.try_recv_returns(Err(TryRecvError::Disconnected)),
    ensures
        (exists|poison: PoisonError<MutexGuard<'a, Receiver<T>>>| #[trigger]
            rx.lock_tried(Err(TryLockError::Poisoned(poison)))) || exists|
            guard: MutexGuard<'a, Receiver<T>>,
        |
            rx.lock_tried(Ok(guard)) && #[trigger] polled_under(
                guard,
                Err::<T, TryRecvError>(TryRecvError::Disconnected),
            ),
{
    let outcome = Err::<T, TryRecvError>(TryRecvError::Disconnected);
    let attempt = choose|
        attempt: Result<MutexGuard<'a, Receiver<T>>, TryLockError<MutexGuard<'a, Receiver<T>>>>,
    |
        rx.lock_tried(attempt) && #[trigger] settles_try_recv(attempt, outcome);
    if let Err(TryLockError::Poisoned(poison)) = attempt {
        assert(rx.lock_tried(Err(TryLockError::Poisoned(poison))));
    }
}

/// An empty queue that is still connected is reported as `Empty`, not as
/// `Disconnected`: where no try for the lock finds it poisoned and every
/// poll of the queue behind it answers `Empty`, so does the non-blocking
/// receive, whether it got the lock or found it held.
pub proof fn empty_queue_is_reported_empty<'a, T>(
    rx: &'a SharedReceiver<T>,
    outcome: Result<T, TryRecvError>,
)
    requires
        rx.try_recv_returns(outcome),
        forall|poison: PoisonError<MutexGuard<'a, Receiver<T>>>|
            !#[trigger] rx.lock_tried(Err(TryLockError::Poisoned(poison))),
        forall|guard: MutexGuard<'a, Receiver<T>>, polled: Result<T, TryRecvError>|
            rx.lock_tried(Ok(guard)) && #[trigger] polled_under(guard, polled) ==> polled == Err::<
                T,
                TryRecvError,
            >(TryRecvError::Empty),
    ensures
        outcome == Err::<T, TryRecvError>(TryRecvError::Empty),
{
    let attempt = choose|
        attempt: Result<MutexGuard<'a, Receiver<T>>, TryLockError<MutexGuard<'a, Receiver<T>>>>,
    |
        rx.lock_tried(attempt) && #[trigger] settles_try_recv(attempt, outcome);
    if let Err(TryLockError::Poisoned(poison)) = attempt {
        assert(rx.lock_tried(Err(TryLockError::Poisoned(poison))));
    }
}

/// Once the queue is disconnected a blocking receive fails: where every
/// receive on the queue behind the lock fails, so does the blocking receive
/// of the endpoint, whatever the lock answered, and a message sequence over
/// the endpoint ends.
pub proof fn disconnected_queue_fails_recv<'a, T>(
    rx: &'a SharedReceiver<T>,
    outcome: Result<T, RecvError>,
)
    requires
        rx.recv_returns(outcome),
        forall|guard: MutexGuard<'a, Receiver<T>>, received: Result<T, RecvError>|
            rx.lock_awaited(Ok(guard)) && #[trigger] received_under(guard, received)
                ==> received is Err,
    ensures
        outcome == Err::<T, RecvError>(RecvError),
        yield_of(outcome) is None,
{
    let attempt = choose|
        attempt: Result<MutexGuard<'a, Receiver<T>>, PoisonError<MutexGuard<'a, Receiver<T>>>>,
    |
        rx.lock_awaited(attempt) && #[trigger] settles_recv(attempt, outcome);
    if attempt is Ok {
        assert(outcome->Err_0 == RecvError);
    }
}

/// A poisoned lock never surfaces as anything but a disconnected queue:
/// where every answer of the lock is a poison, the non-blocking receive
/// reports `Disconnected` and the blocking receive fails.
pub proof fn poisoned_lock_is_reported_disconnected<'a, T>(
    rx: &'a SharedReceiver<T>,
    polled: Result<T, TryRecvError>,
    received: Result<T, RecvError>,
)
    requires
        forall|
            attempt: Result<MutexGuard<'a, Receiver<T>>, TryLockError<MutexGuard<'a, Receiver<T>>>>,
        | #[trigger]
            rx.lock_tried(attempt) ==> attempt matches Err(TryLockError::Poisoned(_)),
        forall|
            attempt: Result<MutexGuard<'a, Receiver<T>>, PoisonError<MutexGuard<'a, Receiver<T>>>>,
        | #[trigger]
            rx.lock_awaited(attempt) ==> attempt is Err,
    ensures
        rx.try_recv_returns(polled) ==> polled == Err::<T, TryRecvError>(
            TryRecvError::Disconnected,
        ),
        rx.recv_returns(received) ==> received == Err::<T, RecvError>(RecvError),
{
}

/// A receive on a clone is a receive on the endpoint it was cloned from:
/// both go to the same lock, so whatever one may return the other may.
pub proof fn clone_receives_from_the_same_queue<T>(
    rx: SharedReceiver<T>,
    handle: SharedReceiver<T>,
    polled: Result<T, TryRecvError>,
    received: Result<T, RecvError>,
)
    requires
        call_ensures(<SharedReceiver<T> as Clone>::clone, (&rx,), handle),
    ensures
        handle.lock() == rx.lock(),
        handle.try_recv_returns(polled) <==> rx.try_recv_returns(polled),
        handle.recv_returns(received) <==> rx.recv_returns(received),
{
}

/// A message sequence yields what the endpoint receives and nothing else: a
/// message comes out only when a blocking receive on the endpoint returned
/// it, and the sequence ends only when such a receive failed.
pub proof fn sequence_follows_the_endpoint<'a, T>(messages: Iter<'a, T>, item: Option<T>)
    requires
        messages.next_yields(item),
    ensures
        item matches Some(message) ==> messages.source().recv_returns(Ok(message)),
        item is None ==> messages.source().recv_returns(Err(RecvError)),
{
    let received = choose|received: Result<T, RecvError>|
        messages.source().recv_returns(received) && item == #[trigger] yield_of(received);
    if received is Err {
        assert(received->Err_0 == RecvError);
    }
}

} // verus!

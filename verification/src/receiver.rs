//! The shared receiving endpoint, the message sequence over it, and the
//! function that creates a channel with such an endpoint.

use crate::settle::{recv_locked, settles_recv, settles_try_recv, try_recv_locked, yield_of, yielded};
use crate::sync::share;
use std::sync::mpsc::{Receiver, RecvError, Sender, TryRecvError};
use std::sync::{Arc, Mutex, MutexGuard, PoisonError, TryLockError};
use vstd::prelude::*;

verus! {

/// The receiving endpoint of a channel, in a form that can be cloned.
///
/// All clones share one receiver, which sits behind a lock. A receive takes
/// the lock, asks the queue once and lets the lock go, so at most one thread
/// is inside the queue at a time and each message is handed to one caller.
/// When the last clone is dropped the receiver goes with it, and senders
/// learn that nobody listens.
///
/// As a value in a contract an endpoint stands for the lock it shares: two
/// endpoints are equal when they are handles to the same lock.
#[verifier::reject_recursive_types(T)]
pub struct SharedReceiver<T> {
    inner: Arc<Mutex<Receiver<T>>>,
}

/// A sequence of the messages that arrive at one endpoint.
///
/// It borrows the endpoint and keeps nothing else: each step is one blocking
/// receive, and the sequence ends when that receive fails. A sequence taken
/// from the endpoint after that ends at once.
#[verifier::reject_recursive_types(T)]
pub struct Iter<'a, T> {
    rx: &'a SharedReceiver<T>,
}

impl<T> Clone for SharedReceiver<T> {
    /// Another handle to the same lock and receiver. No queue is created.
    fn clone(&self) -> (handle: Self)
        ensures
            handle == *self,
    {
        SharedReceiver { inner: share(&self.inner) }
    }
}

impl<T> SharedReceiver<T> {
    /// The lock that this endpoint shares with its clones.
    pub closed spec fn lock(&self) -> Mutex<Receiver<T>> {
        *self.inner
    }

    /// The endpoint's lock was made around `receiver`.
    pub open spec fn wraps(&self, receiver: Receiver<T>) -> bool {
        call_ensures(Mutex::<Receiver<T>>::new, (receiver,), self.lock())
    }

    /// A try for this endpoint's lock returned `attempt`.
    pub open spec fn lock_tried<'a>(
        &'a self,
        attempt: Result<MutexGuard<'a, Receiver<T>>, TryLockError<MutexGuard<'a, Receiver<T>>>>,
    ) -> bool {
        call_ensures(Mutex::<Receiver<T>>::try_lock, (&self.lock(),), attempt)
    }

    /// Waiting for this endpoint's lock returned `attempt`.
    pub open spec fn lock_awaited<'a>(
        &'a self,
        attempt: Result<MutexGuard<'a, Receiver<T>>, PoisonError<MutexGuard<'a, Receiver<T>>>>,
    ) -> bool {
        call_ensures(Mutex::<Receiver<T>>::lock, (&self.lock(),), attempt)
    }

    /// What a non-blocking receive may return: the settlement of one try for
    /// this endpoint's lock.
    pub open spec fn try_recv_returns<'a>(&'a self, outcome: Result<T, TryRecvError>) -> bool {
        exists|
            attempt: Result<MutexGuard<'a, Receiver<T>>, TryLockError<MutexGuard<'a, Receiver<T>>>>,
        |
            self.lock_tried(attempt) && #[trigger] settles_try_recv(attempt, outcome)
    }

    /// What a blocking receive may return: the settlement of one wait for
    /// this endpoint's lock.
    pub open spec fn recv_returns<'a>(&'a self, outcome: Result<T, RecvError>) -> bool {
        exists|
            attempt: Result<MutexGuard<'a, Receiver<T>>, PoisonError<MutexGuard<'a, Receiver<T>>>>,
        |
            self.lock_awaited(attempt) && #[trigger] settles_recv(attempt, outcome)
    }

    /// Puts `receiver` behind a lock of its own and returns the first handle
    /// to it.
    pub fn new(receiver: Receiver<T>) -> (handle: SharedReceiver<T>)
        ensures
            handle.wraps(receiver),
    {
        SharedReceiver { inner: Arc::new(Mutex::new(receiver)) }
    }

    /// Takes the next message if one is waiting. Never blocks.
    ///
    /// Fails with `Empty` when the queue holds nothing right now, or when
    /// another thread is inside a receive at this moment; with
    /// `Disconnected` when every sender is gone and the queue is drained, or
    /// when the lock is poisoned.
    pub fn try_recv(&self) -> (outcome: Result<T, TryRecvError>)
        ensures
            self.try_recv_returns(outcome),
    {
        try_recv_locked(self.inner.try_lock())
    }

    /// Waits for the next message.
    ///
    /// Blocks while another thread is inside a receive, and then until a
    /// message arrives. Fails when every sender is gone and the queue is
    /// drained, or when the lock is poisoned.
    pub fn recv(&self) -> (outcome: Result<T, RecvError>)
        ensures
            self.recv_returns(outcome),
    {
        recv_locked(self.inner.lock())
    }

    /// The messages of this endpoint as a sequence that ends when the queue
    /// is disconnected.
    pub fn iter(&self) -> (messages: Iter<'_, T>)
        ensures
            messages.source() == *self,
    {
        Iter { rx: self }
    }
}

impl<'a, T> Iter<'a, T> {
    /// The endpoint that the sequence draws from.
    pub closed spec fn source(&self) -> SharedReceiver<T> {
        *self.rx
    }

    /// What a step of the sequence may yield: what [`yield_of`] makes of one
    /// blocking receive on the endpoint.
    pub open spec fn next_yields(&self, item: Option<T>) -> bool {
        exists|received: Result<T, RecvError>|
            self.source().recv_returns(received) && item == #[trigger] yield_of(received)
    }

    /// Waits for the next message and yields it, or ends the sequence when
    /// the receive fails. The sequence itself does not change: it stays
    /// bound to the same endpoint and can be asked again.
    pub fn next(&mut self) -> (item: Option<T>)
        ensures
            *final(self) == *old(self),
            old(self).next_yields(item),
    {
        yielded(self.rx.recv())
    }
}

/// Creates a channel and returns its sender together with a receiving
/// endpoint that can be cloned: the endpoint wraps the receiver that was
/// made with the sender.
pub fn shared_channel<T>() -> (ends: (Sender<T>, SharedReceiver<T>))
    ensures
        exists|receiver: Receiver<T>|
            #[trigger] call_ensures(std::sync::mpsc::channel::<T>, (), (ends.0, receiver))
                && ends.1.wraps(receiver),
{
    let (sender, receiver) = std::sync::mpsc::channel();
    let ghost made = receiver;
    let ends = (sender, SharedReceiver::new(receiver));
    assert(call_ensures(std::sync::mpsc::channel::<T>, (), (ends.0, made)));
    ends
}

} // verus!

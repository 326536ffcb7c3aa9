//! Multi-producer, multi-consumer FIFO queue.
//!
//! The standard library's channel has a sending side that can be cloned and a
//! receiving side that cannot. [`shared_channel`] creates such a channel and
//! puts its receiver behind a lock and a reference count, which gives a
//! receiving endpoint, [`SharedReceiver`], that can be cloned as freely as the
//! sender. Every clone draws from the same queue, so each message reaches
//! exactly one of them.
//!
//! What the queue and the lock do is the standard library's business and is
//! assumed, not proved: see [`sync`]. What this crate adds is the rule by which
//! a receive is settled once the lock has answered, and that rule is proved:
//! see [`settle`].

pub mod laws;
pub mod receiver;
pub mod settle;
pub mod sync;

pub use receiver::{shared_channel, Iter, SharedReceiver};
pub use settle::{recv_locked, try_recv_locked, yielded};

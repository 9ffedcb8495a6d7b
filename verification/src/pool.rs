//! A pool of reusable objects, kept in a `std::sync::mpsc` channel so that any thread holding
//! one of the pool's senders can put objects back.

use crate::bounded_channel::{open_bounded_channel, ChannelBound};
use crate::generic_sender::GenericSender;
use std::sync::mpsc::{Receiver, Sender};
use vstd::prelude::*;

verus! {

/// The receiving half of a channel of `std::sync::mpsc`.
#[verifier::external_type_specification]
#[verifier::external_body]
#[verifier::reject_recursive_types(T)]
pub struct ExReceiver<T>(Receiver<T>);

/// `std::sync::mpsc::channel`: a new unbounded channel. Nothing is stated of the two halves,
/// which are opaque here.
#[verifier::external_body]
fn open_unbounded_channel<T: Send>() -> (Sender<T>, Receiver<T>) {
    std::sync::mpsc::channel()
}

/// A pool of reusable objects. Useful to save memory if the value is very large.
#[verifier::reject_recursive_types(T)]
pub struct Pool<T: Send> {
    available_fish: Receiver<T>,
    fish_entry: GenericSender<T>,
    /// The bound the pool's channel was opened with, or `None` when it can hold any number of
    /// values.
    capacity: Option<ChannelBound>,
}

/// `Receiver::recv` on the pool's receiver: blocks until a value is available and returns it.
/// std reports an error only when every sender of the channel has been dropped; the pool keeps
/// a sender of its own channel for as long as it lives, so for a pool that does not happen (the
/// `expect` is never reached). Which value comes back depends on other threads and is not
/// stated.
#[verifier::external_body]
fn receive_blocking<T: Send>(pool: &Pool<T>) -> T {
    pool.available_fish.recv().expect("a pool keeps a sender of its own channel")
}

/// `Receiver::try_recv` on the pool's receiver: returns a value if one is available right now,
/// and `None` when std reports an error. std reports `Empty` when no value is waiting and
/// `Disconnected` only when every sender has been dropped, which does not happen for a pool,
/// since it keeps a sender of its own channel; so `None` means that the pool is empty. Which
/// outcome occurs depends on other threads and is not stated.
#[verifier::external_body]
fn receive_now<T: Send>(pool: &Pool<T>) -> Option<T> {
    pool.available_fish.try_recv().ok()
}

impl<T: Send> Pool<T> {
    /// A pool with a limited capacity puts values in through a synchronous sender, an
    /// unlimited pool through an asynchronous one.
    #[verifier::type_invariant]
    spec fn sender_matches_capacity(self) -> bool {
        (self.fish_entry is Sync) == (self.capacity is Some)
    }

    /// The number of values the pool can hold at once, or `None` when it can hold any number.
    pub closed spec fn capacity(&self) -> Option<nat> {
        match self.capacity {
            Some(bound) => Some(bound.value()),
            None => None,
        }
    }

    /// The pool can hold a limited number of values only.
    pub open spec fn is_bounded(&self) -> bool {
        self.capacity() is Some
    }

    /// Creates a new pool that can store up to `max_fish` values.
    ///
    /// Putting a value into a full pool through a sender of the pool blocks until another user
    /// takes a fish.
    pub fn new_bounded(max_fish: usize) -> (pool: Self)
        ensures
            pool.capacity() == Some(max_fish as nat),
    {
        let (sender, receiver, bound) = open_bounded_channel(max_fish);
        Self {
            available_fish: receiver,
            fish_entry: GenericSender::Sync(sender),
            capacity: Some(bound),
        }
    }

    /// Creates a new pool that can store an unlimited number of values.
    pub fn new_unbounded() -> (pool: Self)
        ensures
            pool.capacity() == None::<nat>,
    {
        let (sender, receiver) = open_unbounded_channel();
        Self {
            available_fish: receiver,
            fish_entry: GenericSender::Async(sender),
            capacity: None,
        }
    }

    /// Retrieves a value from the pool, blocking until at least one is available.
    pub fn get_fish_blocking(&self) -> T {
        receive_blocking(self)
    }

    /// Attempts to retrieve a value from the pool. Never blocks: if no fish is available it
    /// returns `None`.
    pub fn try_get_fish(&self) -> Option<T> {
        receive_now(self)
    }

    /// A new sender through which fish can be put into the pool, either to populate it or to
    /// return a fish that was previously in it. The sender is synchronous (sending blocks while
    /// the pool is full) exactly when the pool is bounded.
    pub fn get_fish_sender(&self) -> (sender: GenericSender<T>)
        ensures
            (sender is Sync) == self.is_bounded(),
    {
        proof {
            use_type_invariant(self);
        }
        self.fish_entry.clone()
    }
}

} // verus!

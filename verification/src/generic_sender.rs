//! A sender that abstracts over a synchronous (bounded) and an asynchronous (unbounded)
//! channel sender of `std::sync::mpsc`.

use std::sync::mpsc::{Sender, SyncSender};
use vstd::prelude::*;

verus! {

/// The sending half of an unbounded channel of `std::sync::mpsc`.
#[verifier::external_type_specification]
#[verifier::external_body]
#[verifier::reject_recursive_types(T)]
pub struct ExSender<T>(Sender<T>);

/// The sending half of a bounded channel of `std::sync::mpsc`.
#[verifier::external_type_specification]
#[verifier::external_body]
#[verifier::reject_recursive_types(T)]
pub struct ExSyncSender<T>(SyncSender<T>);

/// A send failed because the receiver disconnected; holds the value that could not be sent.
#[derive(Debug)]
pub struct SendError<T>(pub T);

/// A non-blocking send failed; both variants hold the value that could not be sent.
#[derive(Debug)]
pub enum TrySendError<T> {
    /// The channel is bounded and has no room left.
    Full(T),
    /// The receiver disconnected.
    Disconnected(T),
}

/// The value that a failed non-blocking send hands back.
pub open spec fn unsent_value<T>(error: TrySendError<T>) -> T {
    match error {
        TrySendError::Full(value) => value,
        TrySendError::Disconnected(value) => value,
    }
}

/// `Sender::send` of `std::sync::mpsc`. It never blocks and fails only when the receiver has
/// disconnected; on failure the value comes back (std hands it back inside `SendError`).
/// Whether it fails depends on other threads and is not stated.
#[verifier::external_body]
fn unbounded_send<T: Send>(sender: &Sender<T>, value: T) -> (r: Result<(), T>)
    ensures
        r matches Err(unsent) ==> unsent == value,
{
    sender.send(value).map_err(|error| error.0)
}

/// `SyncSender::send` of `std::sync::mpsc`. It blocks until the channel has room, and fails
/// only when the receiver has disconnected; on failure the value comes back. Whether it fails
/// depends on other threads and is not stated.
#[verifier::external_body]
fn bounded_send<T: Send>(sender: &SyncSender<T>, value: T) -> (r: Result<(), T>)
    ensures
        r matches Err(unsent) ==> unsent == value,
{
    sender.send(value).map_err(|error| error.0)
}

/// `SyncSender::try_send` of `std::sync::mpsc`. It never blocks; it fails with `Full` when the
/// channel has no room and with `Disconnected` when the receiver has disconnected, and either
/// way the value comes back. Which outcome occurs depends on other threads and is not stated.
#[verifier::external_body]
fn bounded_try_send<T: Send>(sender: &SyncSender<T>, value: T) -> (r: Result<(), TrySendError<T>>)
    ensures
        r matches Err(error) ==> unsent_value(error) == value,
{
    match sender.try_send(value) {
        Ok(()) => Ok(()),
        Err(std::sync::mpsc::TrySendError::Full(unsent)) => Err(TrySendError::Full(unsent)),
        Err(std::sync::mpsc::TrySendError::Disconnected(unsent)) => Err(
            TrySendError::Disconnected(unsent),
        ),
    }
}

/// `Clone::clone` of `Sender`: another sender into the same channel. Nothing is stated of the
/// result, which is opaque here.
#[verifier::external_body]
fn clone_unbounded_sender<T: Send>(sender: &Sender<T>) -> Sender<T> {
    sender.clone()
}

/// `Clone::clone` of `SyncSender`: another sender into the same channel. Nothing is stated of
/// the result, which is opaque here.
#[verifier::external_body]
fn clone_bounded_sender<T: Send>(sender: &SyncSender<T>) -> SyncSender<T> {
    sender.clone()
}

/// A sender of values to some receiver. Abstracts over asynchronous and synchronous senders.
#[derive(Debug)]
#[verifier::reject_recursive_types(T)]
pub enum GenericSender<T: Send> {
    /// Sender of an unbounded channel: sending never blocks.
    Async(Sender<T>),
    /// Sender of a bounded channel: sending blocks while the channel is full.
    Sync(SyncSender<T>),
}

impl<T: Send> Clone for GenericSender<T> {
    /// Another sender of the same kind into the same channel.
    fn clone(&self) -> (copy: Self)
        ensures
            (copy is Sync) == (*self is Sync),
    {
        match self {
            GenericSender::Async(sender) => GenericSender::Async(clone_unbounded_sender(sender)),
            GenericSender::Sync(sync_sender) => GenericSender::Sync(clone_bounded_sender(sync_sender)),
        }
    }
}

impl<T: Send> GenericSender<T> {
    /// Sends the given value to the designated receiver.
    ///
    /// * For the `Async` variant, the function returns immediately.
    /// * For the `Sync` variant, the function blocks until there is room in the channel or the
    ///   receiver disconnected.
    ///
    /// Fails only when the receiver disconnected, with a [`SendError`] holding `value`.
    pub fn send(&self, value: T) -> (r: Result<(), SendError<T>>)
        ensures
            r matches Err(SendError(unsent)) ==> unsent == value,
    {
        let sent = match self {
            GenericSender::Async(sender) => unbounded_send(sender, value),
            GenericSender::Sync(sync_sender) => bounded_send(sync_sender, value),
        };
        match sent {
            Ok(()) => Ok(()),
            Err(unsent) => Err(SendError(unsent)),
        }
    }

    /// Sends the given value without blocking.
    ///
    /// The `Async` variant sends as [`GenericSender::send`] does, and its only possible failure,
    /// a disconnected receiver, is reported as [`TrySendError::Disconnected`]. The `Sync`
    /// variant fails with [`TrySendError::Full`] instead of blocking when the channel has no
    /// room. Either error holds `value`.
    pub fn send_async(&self, value: T) -> (r: Result<(), TrySendError<T>>)
        ensures
            r matches Err(error) ==> unsent_value(error) == value,
            *self is Async ==> !(r matches Err(TrySendError::Full(_))),
    {
        match self {
            GenericSender::Async(sender) => match unbounded_send(sender, value) {
                Ok(()) => Ok(()),
                Err(unsent) => Err(TrySendError::Disconnected(unsent)),
            },
            GenericSender::Sync(sync_sender) => bounded_try_send(sync_sender, value),
        }
    }
}

} // verus!

//! Opening a bounded `std::sync::mpsc` channel, together with a record of the bound it was
//! opened with that only opening a channel can produce.

use std::sync::mpsc::{Receiver, SyncSender};
use vstd::prelude::*;

verus! {

/// The number of values a bounded channel was opened to hold. Its field is private, so the
/// only way to obtain one is to open a channel with [`open_bounded_channel`].
pub struct ChannelBound {
    bound: Ghost<nat>,
}

impl ChannelBound {
    /// The number of values the channel was opened to hold.
    pub closed spec fn value(&self) -> nat {
        self.bound@
    }
}

/// `std::sync::mpsc::sync_channel`: a new channel that holds at most `bound` values. The two
/// halves are opaque here; the third component records the bound the channel was opened with,
/// which is all that is stated of it.
#[verifier::external_body]
pub(crate) fn open_bounded_channel<T: Send>(bound: usize) -> (r: (SyncSender<T>, Receiver<T>, ChannelBound))
    ensures
        r.2.value() == bound,
{
    let (sender, receiver) = std::sync::mpsc::sync_channel(bound);
    (sender, receiver, ChannelBound { bound: Ghost(bound as nat) })
}

} // verus!

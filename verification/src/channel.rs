//! The worker channels between the main thread and the D-Bus worker threads.
//!
//! Whether a send succeeds and what a receive yields depend on the other
//! thread. Each module that uses a channel names the history of its sends or
//! receives and states how one call extends it; the logic around the calls
//! is verified for every outcome.

use vstd::prelude::*;
use std::sync::mpsc::{Receiver, Sender};

verus! {

#[verifier::external_type_specification]
#[verifier::external_body]
#[verifier::reject_recursive_types(T)]
pub struct ExSender<T>(Sender<T>);

#[verifier::external_type_specification]
#[verifier::external_body]
#[verifier::reject_recursive_types(T)]
pub struct ExReceiver<T>(Receiver<T>);

/// Outcome of one non-blocking receive.
pub enum Received<T> {
    /// A message was waiting.
    Message(T),
    /// No message is waiting.
    Empty,
    /// The sending side is gone.
    Disconnected,
}

/// Mathematical form of one receive outcome, as recorded in a receiver's
/// history: the message (by its view), or that the channel was empty or
/// closed.
pub enum Receipt<M> {
    Message(M),
    Empty,
    Disconnected,
}

/// The history entry of a receive outcome.
pub open spec fn receipt_of<T: View>(r: Received<T>) -> Receipt<T::V> {
    match r {
        Received::Message(m) => Receipt::Message(m@),
        Received::Empty => Receipt::Empty,
        Received::Disconnected => Receipt::Disconnected,
    }
}

} // verus!

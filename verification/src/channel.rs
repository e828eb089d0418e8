//! The queue ends that a mailbox holds: the two halves of a bounded Tokio
//! channel that carries text payloads.
//!
//! Nothing in this file is proved: it declares the two outside types and the
//! one call that makes a channel.

use vstd::prelude::*;

verus! {

/// `tokio::sync::mpsc::Sender`, the producing half of a bounded channel.
/// Opaque to the verifier: a value of it is carried, never looked into.
#[verifier::external_type_specification]
#[verifier::external_body]
#[verifier::reject_recursive_types(T)]
pub struct ExSender<T>(tokio::sync::mpsc::Sender<T>);

/// `tokio::sync::mpsc::Receiver`, the consuming half of a bounded channel.
/// Opaque to the verifier: a value of it is carried, never looked into.
#[verifier::external_type_specification]
#[verifier::external_body]
#[verifier::reject_recursive_types(T)]
pub struct ExReceiver<T>(tokio::sync::mpsc::Receiver<T>);

/// The end of a queue that a connection sends into.
pub type ProducerHandle = tokio::sync::mpsc::Sender<String>;

/// The end of a queue that a connection receives from.
pub type ConsumerHandle = tokio::sync::mpsc::Receiver<String>;

/// The number of messages that the channel of `end` was made to buffer: what
/// `Sender::max_capacity` returns for it, constant over the channel's life.
pub uninterp spec fn producer_bound(end: ProducerHandle) -> nat;

/// The number of messages that the channel of `end` was made to buffer: what
/// `Receiver::max_capacity` returns for it, constant over the channel's life.
pub uninterp spec fn consumer_bound(end: ConsumerHandle) -> nat;

/// The largest bound that a channel can be made with: Tokio's
/// `Semaphore::MAX_PERMITS`, which is `usize::MAX >> 3`.
pub open spec fn max_bound() -> nat {
    (usize::MAX / 8) as nat
}

/// Calls `tokio::sync::mpsc::channel::<String>(bound)`.
///
/// Trusted: that both ends report `bound` as their maximum capacity. The
/// outside function panics on a bound of zero and on one above
/// `Semaphore::MAX_PERMITS`; the precondition leaves both out.
#[verifier::external_body]
pub(crate) fn open_channel(bound: usize) -> (ends: (ProducerHandle, ConsumerHandle))
    requires
        0 < bound <= max_bound(),
    ensures
        producer_bound(ends.0) == bound,
        consumer_bound(ends.1) == bound,
{
    tokio::sync::mpsc::channel::<String>(bound)
}

} // verus!

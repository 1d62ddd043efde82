//! The write queue's transport: an unbounded multi-producer channel whose
//! two halves sit on cache lines of their own.
//!
//! The queue is shared with the worker, which empties it while producers
//! fill it. Nothing is therefore claimed here about how deep the queue is or
//! whether the other half is still alive: the code that asks is verified for
//! every answer it may get.

use crate::row::CPostgresRow;
use crossbeam_channel::{Receiver, Sender};
use cuneiform_fields::arch::ArchPadding;
use vstd::prelude::*;

verus! {

/// `crossbeam_channel::Sender`, the producing half of a channel, as an
/// opaque handle.
#[verifier::external_type_specification]
#[verifier::external_body]
#[verifier::reject_recursive_types(T)]
pub struct ExSender<T>(Sender<T>);

/// `crossbeam_channel::Receiver`, the consuming half of a channel, as an
/// opaque handle.
#[verifier::external_type_specification]
#[verifier::external_body]
#[verifier::reject_recursive_types(T)]
pub struct ExReceiver<T>(Receiver<T>);

/// `cuneiform_fields::arch::ArchPadding`, which aligns the value it wraps to
/// the cache line of the target, as an opaque box.
#[verifier::external_type_specification]
#[verifier::external_body]
#[verifier::reject_recursive_types(T)]
pub struct ExArchPadding<T>(ArchPadding<T>);

/// `crossbeam_channel::unbounded` creates a channel and returns its two
/// halves. Nothing is claimed of them.
pub assume_specification<T>[ crossbeam_channel::unbounded::<T> ]() -> (halves: (
    Sender<T>,
    Receiver<T>,
));

/// `ArchPadding::new` wraps a value. Nothing is claimed of the box.
pub assume_specification<T>[ ArchPadding::<T>::new ](t: T) -> (padded: ArchPadding<T>);

/// `Sender::len`: the number of requests in the queue at the moment of the
/// call. The worker may change it at any time, so nothing is claimed of it.
#[verifier::external_body]
pub(crate) fn queue_depth<T>(tx: &ArchPadding<Sender<CPostgresRow<T>>>) -> (depth: usize) {
    tx.len()
}

/// `Sender::send` on an unbounded channel: puts the request into the queue
/// without blocking, or fails when every receiver is gone. The reason handed
/// back on failure is the text `SendError` displays, which is the same for
/// every failed send.
#[verifier::external_body]
pub(crate) fn queue_send<T>(
    tx: &ArchPadding<Sender<CPostgresRow<T>>>,
    item: CPostgresRow<T>,
) -> (sent: Result<(), String>)
    ensures
        sent matches Err(reason) ==> reason@ == "sending on a disconnected channel"@,
{
    match tx.send(item) {
        Ok(()) => Ok(()),
        Err(e) => Err(e.to_string()),
    }
}

/// `Receiver::recv`: waits for the next request and returns it, or returns
/// `None` once the queue is empty and every sender is gone. Which request
/// comes back is not claimed.
#[verifier::external_body]
pub(crate) fn queue_recv<T>(rx: &ArchPadding<Receiver<CPostgresRow<T>>>) -> (item: Option<
    CPostgresRow<T>,
>) {
    match rx.recv() {
        Ok(item) => Some(item),
        Err(_) => None,
    }
}

} // verus!

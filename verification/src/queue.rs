//! The trusted boundary to the underlying bounded queue,
//! `async_channel`. The queue is a thread/task-safe external
//! collaborator shared by arbitrarily many handles, so nothing can be
//! stated about its buffered contents; each wrapper below makes exactly
//! one call into it and promises only what the crate's source shows of
//! every outcome.

use crate::errors::{RecvError, SendError, TryRecvError, TrySendError};
use vstd::prelude::*;

verus! {

/// The producer half of an `async_channel` queue.
#[verifier::external_type_specification]
#[verifier::external_body]
#[verifier::reject_recursive_types(T)]
pub struct ExSender<T>(async_channel::Sender<T>);

/// The consumer half of an `async_channel` queue.
#[verifier::external_type_specification]
#[verifier::external_body]
#[verifier::reject_recursive_types(T)]
pub struct ExReceiver<T>(async_channel::Receiver<T>);

/// Relies on async_channel::bounded: a freshly created bounded queue of
/// capacity `cap`, handed back as its linked sender and receiver halves.
/// It panics on a zero capacity, which the precondition rules out.
#[verifier::external_body]
pub(crate) fn queue_bounded<M>(cap: usize) -> (r: (
    async_channel::Sender<M>,
    async_channel::Receiver<M>,
))
    requires
        1 <= cap,
{
    async_channel::bounded(cap)
}

/// Relies on async_channel::Sender::send_blocking: blocks the calling
/// thread while the queue is at capacity; on a closed queue the message
/// comes back unchanged inside the error.
#[verifier::external_body]
pub(crate) fn queue_send_blocking<M>(tx: &async_channel::Sender<M>, msg: M) -> (r: Result<
    (),
    SendError<M>,
>)
    ensures
        r matches Err(e) ==> e.0 == msg,
{
    match tx.send_blocking(msg) {
        Ok(()) => Ok(()),
        Err(async_channel::SendError(m)) => Err(SendError(m)),
    }
}

/// Relies on async_channel::Sender::try_send: never waits; on a full or
/// closed queue the message comes back unchanged inside the error.
#[verifier::external_body]
pub(crate) fn queue_try_send<M>(tx: &async_channel::Sender<M>, msg: M) -> (r: Result<
    (),
    TrySendError<M>,
>)
    ensures
        r matches Err(TrySendError::Full(m)) ==> m == msg,
        r matches Err(TrySendError::Closed(m)) ==> m == msg,
{
    match tx.try_send(msg) {
        Ok(()) => Ok(()),
        Err(async_channel::TrySendError::Full(m)) => Err(TrySendError::Full(m)),
        Err(async_channel::TrySendError::Closed(m)) => Err(TrySendError::Closed(m)),
    }
}

/// Relies on async_channel::Receiver::recv_blocking: blocks the calling
/// thread while the queue is empty and open; fails once the queue is
/// closed and drained.
#[verifier::external_body]
pub(crate) fn queue_recv_blocking<M>(rx: &async_channel::Receiver<M>) -> (r: Result<
    M,
    RecvError,
>) {
    match rx.recv_blocking() {
        Ok(m) => Ok(m),
        Err(async_channel::RecvError) => Err(RecvError),
    }
}

/// Relies on async_channel::Receiver::try_recv: never waits; reports
/// whether the queue is merely empty right now or closed for good.
#[verifier::external_body]
pub(crate) fn queue_try_recv<M>(rx: &async_channel::Receiver<M>) -> (r: Result<
    M,
    TryRecvError,
>) {
    match rx.try_recv() {
        Ok(m) => Ok(m),
        Err(async_channel::TryRecvError::Empty) => Err(TryRecvError::Empty),
        Err(async_channel::TryRecvError::Closed) => Err(TryRecvError::Closed),
    }
}

/// Relies on async_channel::Sender::clone: an independent handle
/// referencing the same underlying queue.
#[verifier::external_body]
pub(crate) fn queue_clone_sender<M>(tx: &async_channel::Sender<M>) -> (r: async_channel::Sender<
    M,
>) {
    tx.clone()
}

/// Relies on async_channel::Receiver::clone: an independent handle
/// referencing the same underlying queue.
#[verifier::external_body]
pub(crate) fn queue_clone_receiver<M>(rx: &async_channel::Receiver<M>) -> (r:
    async_channel::Receiver<M>) {
    rx.clone()
}

/// Relies on async_channel::Sender::len: how many frames the queue
/// buffers at the instant of the call.
#[verifier::external_body]
pub(crate) fn sender_len<M>(tx: &async_channel::Sender<M>) -> usize {
    tx.len()
}

/// Relies on async_channel::Sender::capacity: the bound the queue was
/// created with, or none for an unbounded queue.
#[verifier::external_body]
pub(crate) fn sender_capacity<M>(tx: &async_channel::Sender<M>) -> Option<usize> {
    tx.capacity()
}

/// Relies on async_channel::Sender::is_empty.
#[verifier::external_body]
pub(crate) fn sender_is_empty<M>(tx: &async_channel::Sender<M>) -> bool {
    tx.is_empty()
}

/// Relies on async_channel::Sender::is_full.
#[verifier::external_body]
pub(crate) fn sender_is_full<M>(tx: &async_channel::Sender<M>) -> bool {
    tx.is_full()
}

/// Relies on async_channel::Sender::is_closed.
#[verifier::external_body]
pub(crate) fn sender_is_closed<M>(tx: &async_channel::Sender<M>) -> bool {
    tx.is_closed()
}

/// Relies on async_channel::Sender::close: closes the queue and says
/// whether this call was the one that closed it.
#[verifier::external_body]
pub(crate) fn sender_close<M>(tx: &async_channel::Sender<M>) -> bool {
    tx.close()
}

/// Relies on async_channel::Sender::sender_count.
#[verifier::external_body]
pub(crate) fn sender_sender_count<M>(tx: &async_channel::Sender<M>) -> usize {
    tx.sender_count()
}

/// Relies on async_channel::Sender::receiver_count.
#[verifier::external_body]
pub(crate) fn sender_receiver_count<M>(tx: &async_channel::Sender<M>) -> usize {
    tx.receiver_count()
}

/// Relies on async_channel::Receiver::len.
#[verifier::external_body]
pub(crate) fn receiver_len<M>(rx: &async_channel::Receiver<M>) -> usize {
    rx.len()
}

/// Relies on async_channel::Receiver::capacity.
#[verifier::external_body]
pub(crate) fn receiver_capacity<M>(rx: &async_channel::Receiver<M>) -> Option<usize> {
    rx.capacity()
}

/// Relies on async_channel::Receiver::is_empty.
#[verifier::external_body]
pub(crate) fn receiver_is_empty<M>(rx: &async_channel::Receiver<M>) -> bool {
    rx.is_empty()
}

/// Relies on async_channel::Receiver::is_full.
#[verifier::external_body]
pub(crate) fn receiver_is_full<M>(rx: &async_channel::Receiver<M>) -> bool {
    rx.is_full()
}

/// Relies on async_channel::Receiver::is_closed.
#[verifier::external_body]
pub(crate) fn receiver_is_closed<M>(rx: &async_channel::Receiver<M>) -> bool {
    rx.is_closed()
}

/// Relies on async_channel::Receiver::close: closes the queue and says
/// whether this call was the one that closed it.
#[verifier::external_body]
pub(crate) fn receiver_close<M>(rx: &async_channel::Receiver<M>) -> bool {
    rx.close()
}

/// Relies on async_channel::Receiver::sender_count.
#[verifier::external_body]
pub(crate) fn receiver_sender_count<M>(rx: &async_channel::Receiver<M>) -> usize {
    rx.sender_count()
}

/// Relies on async_channel::Receiver::receiver_count.
#[verifier::external_body]
pub(crate) fn receiver_receiver_count<M>(rx: &async_channel::Receiver<M>) -> usize {
    rx.receiver_count()
}

} // verus!

//! The two channel endpoints and the factory. The producer wraps values
//! in frames and pushes them; the consumer pops frames and applies the
//! dedup filtering rule of [`crate::filter`] before handing payloads to
//! the caller.

use crate::errors::{RecvError, SendError, TryRecvError, TrySendError};
use crate::filter::{admits, after_frame};
use crate::frame::{EFrame, EIdHash};
use crate::queue;
use std::collections::HashSet;
use vstd::prelude::*;

verus! {

broadcast use vstd::std_specs::hash::group_hash_axioms;

/// The producer endpoint: a cloneable handle to the shared bounded
/// queue. Producers carry no dedup state — the same logical entity may
/// be sent as initial arbitrarily many times.
#[verifier::reject_recursive_types(T)]
pub struct EFrameSender<T> where T: EIdHash {
    tx: async_channel::Sender<EFrame<T>>,
}

impl<T> Clone for EFrameSender<T> where T: EIdHash {
    /// An independent handle referencing the same underlying queue.
    fn clone(&self) -> Self {
        EFrameSender { tx: queue::queue_clone_sender(&self.tx) }
    }
}

impl<T> EFrameSender<T> where T: EIdHash {
    /// Wraps `data` as a non-initial frame and pushes it, blocking while
    /// the queue is at capacity. On a closed queue the payload comes
    /// back unchanged inside the error.
    pub fn send_blocking(&self, data: T) -> (r: Result<(), SendError<T>>)
        ensures
            r matches Err(e) ==> e.0 == data,
    {
        match queue::queue_send_blocking(&self.tx, EFrame::new(data)) {
            Ok(()) => Ok(()),
            Err(e) => Err(SendError(e.0.data)),
        }
    }

    /// Wraps `data` as an initial frame and pushes it, blocking while
    /// the queue is at capacity. On a closed queue the payload comes
    /// back unchanged inside the error.
    pub fn send_initial_blocking(&self, data: T) -> (r: Result<(), SendError<T>>)
        ensures
            r matches Err(e) ==> e.0 == data,
    {
        match queue::queue_send_blocking(&self.tx, EFrame::new_initial(data)) {
            Ok(()) => Ok(()),
            Err(e) => Err(SendError(e.0.data)),
        }
    }

    /// Wraps `data` as a non-initial frame and pushes it without
    /// waiting. On a full or closed queue the payload comes back
    /// unchanged inside the error.
    pub fn try_send(&self, data: T) -> (r: Result<(), TrySendError<T>>)
        ensures
            r matches Err(TrySendError::Full(v)) ==> v == data,
            r matches Err(TrySendError::Closed(v)) ==> v == data,
    {
        match queue::queue_try_send(&self.tx, EFrame::new(data)) {
            Ok(()) => Ok(()),
            Err(TrySendError::Full(f)) => Err(TrySendError::Full(f.data)),
            Err(TrySendError::Closed(f)) => Err(TrySendError::Closed(f.data)),
        }
    }

    /// Wraps `data` as an initial frame and pushes it without waiting.
    /// On a full or closed queue the payload comes back unchanged inside
    /// the error.
    pub fn try_send_initial(&self, data: T) -> (r: Result<(), TrySendError<T>>)
        ensures
            r matches Err(TrySendError::Full(v)) ==> v == data,
            r matches Err(TrySendError::Closed(v)) ==> v == data,
    {
        match queue::queue_try_send(&self.tx, EFrame::new_initial(data)) {
            Ok(()) => Ok(()),
            Err(TrySendError::Full(f)) => Err(TrySendError::Full(f.data)),
            Err(TrySendError::Closed(f)) => Err(TrySendError::Closed(f.data)),
        }
    }

    /// A fresh handle to the underlying queue, for embedders that drive
    /// the suspending operations themselves.
    pub fn queue_handle(&self) -> async_channel::Sender<EFrame<T>> {
        queue::queue_clone_sender(&self.tx)
    }

    /// How many frames the queue buffers at the instant of the call.
    pub fn len(&self) -> usize {
        queue::sender_len(&self.tx)
    }

    /// The bound the queue was created with.
    pub fn capacity(&self) -> Option<usize> {
        queue::sender_capacity(&self.tx)
    }

    /// Whether the queue buffers no frame at the instant of the call.
    pub fn is_empty(&self) -> bool {
        queue::sender_is_empty(&self.tx)
    }

    /// Whether the queue is at capacity at the instant of the call.
    pub fn is_full(&self) -> bool {
        queue::sender_is_full(&self.tx)
    }

    /// Whether the queue has been closed.
    pub fn is_closed(&self) -> bool {
        queue::sender_is_closed(&self.tx)
    }

    /// Closes the queue; idempotent, true only for the closing call.
    pub fn close(&self) -> bool {
        queue::sender_close(&self.tx)
    }

    /// How many producer handles reference the queue.
    pub fn sender_count(&self) -> usize {
        queue::sender_sender_count(&self.tx)
    }

    /// How many consumer handles reference the queue.
    pub fn receiver_count(&self) -> usize {
        queue::sender_receiver_count(&self.tx)
    }
}

/// The consumer endpoint: a handle to the shared bounded queue plus this
/// consumer's private dedup memory. The memory is never shared, even
/// among consumers of the same queue.
#[verifier::reject_recursive_types(T)]
pub struct EFrameReceiver<T> where T: EIdHash {
    rx: async_channel::Receiver<EFrame<T>>,
    processed: HashSet<u64>,
}

impl<T> EFrameReceiver<T> where T: EIdHash {
    /// The dedup memory: the set of identity hashes already delivered by
    /// this consumer since construction or the last reset.
    pub closed spec fn processed_ids(&self) -> Set<u64> {
        self.processed@
    }

    /// Applies the dedup rule to one popped frame: delivers the payload
    /// and marks its hash, or drops the frame and leaves the memory
    /// unchanged — exactly [`admits`] and [`after_frame`].
    pub fn process_frame(&mut self, frame: EFrame<T>) -> (r: Option<T>)
        ensures
            admits(frame, old(self).processed_ids()) ==> r == Some(frame.data),
            !admits(frame, old(self).processed_ids()) ==> r is None,
            final(self).processed_ids() == after_frame(frame, old(self).processed_ids()),
    {
        let initial = frame.is_initial();
        match frame.data.eid_hash() {
            None => Some(frame.data),
            Some(h) => {
                if !initial || !self.processed.contains(&h) {
                    self.processed.insert(h);
                    Some(frame.data)
                } else {
                    None
                }
            },
        }
    }

    /// Pops frames, blocking while the queue is empty and open, until
    /// one passes the dedup rule; its payload is delivered and, if it
    /// carries a hash, that hash alone is added to the memory. Frames
    /// dropped on the way leave the memory unchanged. Fails once the
    /// queue is closed and drained.
    pub fn recv_blocking(&mut self) -> (r: Result<T, RecvError>)
        ensures
            r matches Ok(v) ==> match v.id_hash() {
                Some(h) => final(self).processed_ids() == old(self).processed_ids().insert(h),
                None => final(self).processed_ids() == old(self).processed_ids(),
            },
            r is Err ==> final(self).processed_ids() == old(self).processed_ids(),
    {
        // Every loop needs a decreases clause; the budget supplies one.
        // It is consumed only by dropped duplicates, and a consumer that
        // drops usize::MAX of them in one call is unreachable in practice.
        let mut budget: usize = usize::MAX;
        loop
            invariant
                self.processed_ids() == old(self).processed_ids(),
            decreases budget,
        {
            match queue::queue_recv_blocking(&self.rx) {
                Ok(frame) => {
                    if let Some(v) = self.process_frame(frame) {
                        return Ok(v);
                    }
                    if budget == 0 {
                        return Err(RecvError);
                    }
                    budget = budget - 1;
                },
                Err(e) => {
                    return Err(e);
                },
            }
        }
    }

    /// Pops already-buffered frames, never waiting, until one passes the
    /// dedup rule; a run of dropped duplicates within the buffer is
    /// skipped within the same call, not treated as failure. Fails with
    /// `Empty` once the buffer holds nothing deliverable while the queue
    /// is open, and with `Closed` once it is closed and drained.
    pub fn try_recv(&mut self) -> (r: Result<T, TryRecvError>)
        ensures
            r matches Ok(v) ==> match v.id_hash() {
                Some(h) => final(self).processed_ids() == old(self).processed_ids().insert(h),
                None => final(self).processed_ids() == old(self).processed_ids(),
            },
            r is Err ==> final(self).processed_ids() == old(self).processed_ids(),
    {
        // Only frames already buffered when the call begins are owed a
        // look, which bounds the loop: after that many dropped
        // duplicates, nothing deliverable was buffered.
        let mut remaining: usize = self.len();
        loop
            invariant
                self.processed_ids() == old(self).processed_ids(),
            decreases remaining,
        {
            match queue::queue_try_recv(&self.rx) {
                Ok(frame) => {
                    if let Some(v) = self.process_frame(frame) {
                        return Ok(v);
                    }
                    if remaining == 0 {
                        return Err(TryRecvError::Empty);
                    }
                    remaining = remaining - 1;
                },
                Err(e) => {
                    return Err(e);
                },
            }
        }
    }

    /// Clears the dedup memory entirely: subsequent initial frames for
    /// previously seen identities are delivered again as if never seen.
    pub fn reset_processed(&mut self)
        ensures
            final(self).processed_ids() == Set::<u64>::empty(),
    {
        self.processed.clear();
    }

    /// A fresh handle to the underlying queue, for embedders that drive
    /// the suspending operations themselves.
    pub fn queue_handle(&self) -> async_channel::Receiver<EFrame<T>> {
        queue::queue_clone_receiver(&self.rx)
    }

    /// How many frames the queue buffers at the instant of the call.
    pub fn len(&self) -> usize {
        queue::receiver_len(&self.rx)
    }

    /// The bound the queue was created with.
    pub fn capacity(&self) -> Option<usize> {
        queue::receiver_capacity(&self.rx)
    }

    /// Whether the queue buffers no frame at the instant of the call.
    pub fn is_empty(&self) -> bool {
        queue::receiver_is_empty(&self.rx)
    }

    /// Whether the queue is at capacity at the instant of the call.
    pub fn is_full(&self) -> bool {
        queue::receiver_is_full(&self.rx)
    }

    /// Whether the queue has been closed.
    pub fn is_closed(&self) -> bool {
        queue::receiver_is_closed(&self.rx)
    }

    /// Closes the queue; idempotent, true only for the closing call.
    pub fn close(&self) -> bool {
        queue::receiver_close(&self.rx)
    }

    /// How many producer handles reference the queue.
    pub fn sender_count(&self) -> usize {
        queue::receiver_sender_count(&self.rx)
    }

    /// How many consumer handles reference the queue.
    pub fn receiver_count(&self) -> usize {
        queue::receiver_receiver_count(&self.rx)
    }
}

/// The factory: one freshly created bounded queue of capacity `cap`,
/// wrapped as a linked producer/consumer pair. The consumer starts with
/// empty dedup memory. The capacity must be positive.
pub fn bounded<T>(cap: usize) -> (r: (EFrameSender<T>, EFrameReceiver<T>)) where T: EIdHash
    requires
        1 <= cap,
    ensures
        r.1.processed_ids() == Set::<u64>::empty(),
{
    let (tx, rx) = queue::queue_bounded(cap);
    (EFrameSender { tx }, EFrameReceiver { rx, processed: HashSet::new() })
}

} // verus!

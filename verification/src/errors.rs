//! The channel's error taxonomy. The dedup layer introduces no error
//! kinds of its own: these mirror what the underlying queue reports, and
//! the send-side errors return the rejected payload to the caller.

use vstd::prelude::*;

verus! {

/// A blocking or suspending send failed because the channel is closed.
/// Carries the rejected payload back for disposal or retry.
#[derive(Debug, PartialEq, Eq)]
pub struct SendError<T>(pub T);

/// A non-blocking send was refused. Either way the rejected payload
/// comes back unchanged.
#[derive(Debug, PartialEq, Eq)]
pub enum TrySendError<T> {
    /// The queue is at capacity.
    Full(T),
    /// The channel is closed.
    Closed(T),
}

/// A blocking or suspending receive failed: the channel is closed and no
/// buffered frame remains.
#[derive(Clone, Copy, Debug, PartialEq, Eq, Structural)]
pub struct RecvError;

/// A non-blocking receive found no deliverable frame.
#[derive(Clone, Copy, Debug, PartialEq, Eq, Structural)]
pub enum TryRecvError {
    /// Nothing deliverable is buffered right now; the channel is still open.
    Empty,
    /// The channel is closed and no buffered frame remains.
    Closed,
}

} // verus!

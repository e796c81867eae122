//! Frames and the identity-hash capability of payload types.

use vstd::prelude::*;

verus! {

/// The identity capability: a payload type exposes an optional 64-bit
/// identity hash. `None` means the value opts out of deduplication and is
/// always delivered; `Some(h)` means `h` is the value's deduplication
/// identity. Two values standing for the same logical entity must hash
/// equal; hash equality is the sole admissibility test.
pub trait EIdHash {
    /// The identity hash, as a mathematical function of the value alone.
    spec fn id_hash(&self) -> Option<u64>;

    /// Computes the identity hash. Implementations must be deterministic
    /// and side-effect-free, which is captured by agreement with
    /// [`id_hash`](Self::id_hash).
    fn eid_hash(&self) -> (r: Option<u64>)
        ensures
            r == self.id_hash(),
    ;
}

/// A payload together with an `initial` tag, the unit of transit through
/// the queue. The constructors are the intended way to build one; the
/// tag is never changed once a frame is built.
pub struct EFrame<T> where T: EIdHash {
    pub data: T,
    pub initial: bool,
}

impl<T> EFrame<T> where T: EIdHash {
    /// Whether this frame carries the initial tag.
    pub open spec fn is_init(&self) -> bool {
        self.initial
    }

    /// Wraps a payload as a non-initial frame.
    pub fn new(data: T) -> (r: Self)
        ensures
            r.data == data,
            !r.is_init(),
    {
        Self { data, initial: false }
    }

    /// Wraps a payload as an initial frame.
    pub fn new_initial(data: T) -> (r: Self)
        ensures
            r.data == data,
            r.is_init(),
    {
        Self { data, initial: true }
    }

    /// Reads the initial tag.
    pub fn is_initial(&self) -> (r: bool)
        ensures
            r == self.is_init(),
    {
        self.initial
    }
}

/// A ready-made payload type: a value together with its optional
/// deduplication identity. Handy for embedders whose payloads are plain
/// numbers, and the payload the test suite runs the channel on.
#[derive(Clone, Copy, Debug, PartialEq, Eq)]
pub struct EntityValue {
    pub value: u64,
    pub id: Option<u64>,
}

impl EIdHash for EntityValue {
    open spec fn id_hash(&self) -> Option<u64> {
        self.id
    }

    fn eid_hash(&self) -> (r: Option<u64>) {
        self.id
    }
}

} // verus!

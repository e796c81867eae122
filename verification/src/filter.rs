//! The receive-side filtering rule, as spec-level functions over the
//! dedup memory (a set of identity hashes already delivered).

use crate::frame::{EFrame, EIdHash};
use vstd::prelude::*;

verus! {

/// Whether a frame is delivered when popped against dedup memory
/// `processed`: untracked payloads (hash `None`) always are, and so are
/// non-initial frames; an initial frame is delivered exactly when its
/// hash is not yet remembered.
pub open spec fn admits<T: EIdHash>(frame: EFrame<T>, processed: Set<u64>) -> bool {
    match frame.data.id_hash() {
        Option::None => true,
        Option::Some(h) => !frame.is_init() || !processed.contains(h),
    }
}

/// The dedup memory after one frame has been handled: every delivered
/// frame that carries a hash marks it — initial or not — and a dropped
/// or untracked frame leaves the memory unchanged.
pub open spec fn after_frame<T: EIdHash>(frame: EFrame<T>, processed: Set<u64>) -> Set<u64> {
    match frame.data.id_hash() {
        Option::None => processed,
        Option::Some(h) => if admits(frame, processed) {
            processed.insert(h)
        } else {
            processed
        },
    }
}

} // verus!

//! The guarantees of the filtering rule, stated and proved over the
//! spec-level model of [`crate::filter`]: one frame at a time, and over
//! whole runs of frames handled in order by one consumer.

use crate::filter::{admits, after_frame};
use crate::frame::{EFrame, EIdHash};
use vstd::prelude::*;

verus! {

/// The dedup memory after the first `i` frames of `frames` have each
/// been handled in order, starting from `processed`.
pub open spec fn mem_at<T: EIdHash>(
    frames: Seq<EFrame<T>>,
    processed: Set<u64>,
    i: int,
) -> Set<u64>
    decreases i,
{
    if i <= 0 {
        processed
    } else {
        after_frame(frames[i - 1], mem_at(frames, processed, i - 1))
    }
}

/// Handling a frame never forgets an identity: the memory only grows
/// until an explicit reset.
pub proof fn lemma_after_frame_grows<T: EIdHash>(frame: EFrame<T>, processed: Set<u64>)
    ensures
        processed.subset_of(after_frame(frame, processed)),
{
}

/// Memory growth over a run: the memory after `j` frames holds
/// everything the memory after `i` frames held.
pub proof fn lemma_mem_at_grows<T: EIdHash>(
    frames: Seq<EFrame<T>>,
    processed: Set<u64>,
    i: int,
    j: int,
)
    requires
        0 <= i <= j,
    ensures
        mem_at(frames, processed, i).subset_of(mem_at(frames, processed, j)),
    decreases j - i,
{
    if i < j {
        lemma_mem_at_grows(frames, processed, i, j - 1);
        lemma_after_frame_grows(frames[j - 1], mem_at(frames, processed, j - 1));
    }
}

/// Non-initial immunity: a non-initial frame is delivered no matter how
/// many prior frames shared its hash.
pub proof fn lemma_non_initial_immunity<T: EIdHash>(frame: EFrame<T>, processed: Set<u64>)
    requires
        !frame.is_init(),
    ensures
        admits(frame, processed),
{
}

/// Untracked bypass: a payload whose identity hash is `None` is always
/// delivered, initial or not, and never touches the memory.
pub proof fn lemma_untracked_bypass<T: EIdHash>(frame: EFrame<T>, processed: Set<u64>)
    requires
        frame.data.id_hash() is None,
    ensures
        admits(frame, processed),
        after_frame(frame, processed) == processed,
{
}

/// Reset restores delivery: against cleared memory every frame is
/// delivered again, an initial frame with a previously seen hash too.
pub proof fn lemma_reset_restores_delivery<T: EIdHash>(frame: EFrame<T>)
    ensures
        admits(frame, Set::<u64>::empty()),
{
}

/// Every delivered frame that carries a hash marks it — initial or not.
pub proof fn lemma_delivery_marks<T: EIdHash>(frame: EFrame<T>, processed: Set<u64>, h: u64)
    requires
        frame.data.id_hash() == Some(h),
        admits(frame, processed),
    ensures
        after_frame(frame, processed).contains(h),
{
}

/// Initial dedup: once an initial frame with hash `h` has been
/// delivered, a second initial frame with hash `h` is suppressed.
pub proof fn lemma_initial_dedup<T: EIdHash>(
    first: EFrame<T>,
    second: EFrame<T>,
    processed: Set<u64>,
    h: u64,
)
    requires
        first.is_init(),
        first.data.id_hash() == Some(h),
        admits(first, processed),
        second.is_init(),
        second.data.id_hash() == Some(h),
    ensures
        !admits(second, after_frame(first, processed)),
{
    lemma_delivery_marks(first, processed, h);
}

/// Cross-priming: delivering a non-initial frame with hash `h` also
/// suppresses a later initial frame with hash `h`, even though no
/// initial frame for that identity was ever delivered.
pub proof fn lemma_cross_priming<T: EIdHash>(
    first: EFrame<T>,
    second: EFrame<T>,
    processed: Set<u64>,
    h: u64,
)
    requires
        !first.is_init(),
        first.data.id_hash() == Some(h),
        second.is_init(),
        second.data.id_hash() == Some(h),
    ensures
        !admits(second, after_frame(first, processed)),
{
    lemma_delivery_marks(first, processed, h);
}

/// Over a whole run: once the frame at `i` was delivered carrying hash
/// `h`, any later initial frame with hash `h` is suppressed — whether
/// the frame at `i` was itself initial (initial dedup) or not
/// (cross-priming). So each tracked identity is delivered in initial
/// form at most once between resets.
pub proof fn lemma_no_second_initial_delivery<T: EIdHash>(
    frames: Seq<EFrame<T>>,
    processed: Set<u64>,
    i: int,
    j: int,
    h: u64,
)
    requires
        0 <= i < j < frames.len(),
        frames[i].data.id_hash() == Some(h),
        admits(frames[i], mem_at(frames, processed, i)),
        frames[j].is_init(),
        frames[j].data.id_hash() == Some(h),
    ensures
        !admits(frames[j], mem_at(frames, processed, j)),
{
    lemma_delivery_marks(frames[i], mem_at(frames, processed, i), h);
    assert(mem_at(frames, processed, i + 1) == after_frame(
        frames[i],
        mem_at(frames, processed, i),
    ));
    lemma_mem_at_grows(frames, processed, i + 1, j);
}

} // verus!

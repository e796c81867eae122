//! A bounded multi-producer/multi-consumer channel with receive-side
//! deduplication of "initial" frames.
//!
//! Payload values are wrapped in a [`EFrame`] that tags them as initial
//! (a snapshot / first-state notification for some logical entity) or
//! non-initial. Each consumer keeps a private memory of the identity
//! hashes it has already delivered; an initial frame whose identity is
//! already remembered is silently dropped, while non-initial frames are
//! always delivered. The bounded queue underneath is `async_channel`.

mod channel;
mod errors;
mod filter;
mod frame;
mod laws;
mod queue;

pub use channel::{bounded, EFrameReceiver, EFrameSender};
pub use errors::{RecvError, SendError, TryRecvError, TrySendError};
pub use filter::{admits, after_frame};
pub use frame::{EFrame, EIdHash, EntityValue};
pub use laws::{
    lemma_after_frame_grows, lemma_cross_priming, lemma_delivery_marks, lemma_initial_dedup,
    lemma_mem_at_grows, lemma_no_second_initial_delivery, lemma_non_initial_immunity,
    lemma_reset_restores_delivery, lemma_untracked_bypass, mem_at,
};

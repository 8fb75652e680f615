//! A two-direction message bridge between the two cores of an RP2040.
//!
//! The primary core sends values of type `T` over a queue of capacity `N`
//! and receives values of type `U` over a queue of capacity `M`; the
//! secondary core sees the same two queues from the other end.
//!
//! Each queue is an embassy-sync `Channel`, a fixed-size buffer under a
//! critical section that excludes both cores. While the state is held by
//! `&mut` its operations have exact contracts over what the queues hold;
//! once it is shared by `&'static`, each core uses its own ends.

mod bridge;
mod queue;
mod never;

pub use bridge::{BidiChannel, State};
pub use queue::{
    after_receive, after_send, after_sends, lemma_fifo, lemma_length_bounded, lemma_receive_all,
    lemma_sends_append, received, Queue, RawQueue,
};
pub use never::HasOutput;

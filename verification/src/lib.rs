//! Request/response channel pairs over crossbeam's MPMC channels.
//!
//! A [`Bridge`] joins two processes, the `Left` and the `Right`. Messages of
//! type `L` travel from the left to the right on one channel, messages of
//! type `R` travel back on another. The bridge holds both ends of both
//! channels, so neither channel can be disconnected while the bridge lives.

pub use crossbeam_channel::{
    Iter, Receiver, RecvError, RecvTimeoutError, SendError, SendTimeoutError, Sender, TryIter,
    TryRecvError, TrySendError,
};

mod channel;
pub mod pipe;
mod bridge;

pub use bridge::{
    bounded_bridge, bounded_capacity_fits, left_bounded_bridge, right_bounded_bridge,
    unbounded_bridge, Bridge,
    LeftChannelSplit, RightChannelSplit,
};

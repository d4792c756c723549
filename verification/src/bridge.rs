//! The `Bridge`: two channels, one for each direction.
//!
//! Naming follows the processes. The `Left` sends `L` messages to the
//! `Right`, and the `Right` answers with `R` messages. The "left channel"
//! below is the one that carries `L` messages (its sender is the left
//! sender, its receiver the one the right reads); the "right channel"
//! carries `R` messages.
use crate::pipe::Pipe;
use crossbeam_channel::{
    Iter, Receiver, RecvError, RecvTimeoutError, SendError, SendTimeoutError, Sender, TryIter,
    TryRecvError, TrySendError,
};
use std::time::{Duration, Instant};
use vstd::prelude::*;

verus! {

/// Channel split held by the `Left` process: a `Sender<L>` and a `Receiver<R>`.
pub type LeftChannelSplit<L, R> = (Sender<L>, Receiver<R>);

/// Channel split held by the `Right` process: a `Sender<R>` and a `Receiver<L>`.
pub type RightChannelSplit<L, R> = (Sender<R>, Receiver<L>);

/// The bridge holding the `Left` and `Right` channels.
///
/// Both ends of both channels stay inside the bridge, so as long as a bridge
/// (or a clone of it) lives, neither channel is disconnected: a send that
/// returns has been accepted and a receive that returns has a message.
#[derive(Debug)]
#[verifier::reject_recursive_types(L)]
#[verifier::reject_recursive_types(R)]
pub struct Bridge<L, R> {
    /// Carries `L` messages from the left to the right.
    left_chan: Pipe<L>,
    /// Carries `R` messages from the right to the left.
    right_chan: Pipe<R>,
}

impl<L, R> Bridge<L, R> {
    /// The capacity the left channel (`L` messages) was made with;
    /// `None` when it is unbounded.
    pub closed spec fn left_limit(&self) -> Option<usize> {
        self.left_chan.limit()
    }

    /// The capacity the right channel (`R` messages) was made with;
    /// `None` when it is unbounded.
    pub closed spec fn right_limit(&self) -> Option<usize> {
        self.right_chan.limit()
    }

    /// The bridge's own sender on the left channel (`L` messages).
    pub closed spec fn left_tx(&self) -> Sender<L> {
        self.left_chan.sender()
    }

    /// The bridge's own receiver on the left channel (`L` messages).
    pub closed spec fn left_rx(&self) -> Receiver<L> {
        self.left_chan.receiver()
    }

    /// The bridge's own sender on the right channel (`R` messages).
    pub closed spec fn right_tx(&self) -> Sender<R> {
        self.right_chan.sender()
    }

    /// The bridge's own receiver on the right channel (`R` messages).
    pub closed spec fn right_rx(&self) -> Receiver<R> {
        self.right_chan.receiver()
    }

    /// Creates two channels with no capacity restraints.
    pub fn unbounded() -> (b: Self)
        ensures
            b.left_limit() == None::<usize>,
            b.right_limit() == None::<usize>,
    {
        Bridge { left_chan: Pipe::unbounded(), right_chan: Pipe::unbounded() }
    }

    /// Creates two channels that each hold at most `cap` messages at a time.
    pub fn bounded(cap: usize) -> (b: Self)
        requires
            crate::pipe::bounded_fits::<L>(cap),
            crate::pipe::bounded_fits::<R>(cap),
        ensures
            b.left_limit() == Some(cap),
            b.right_limit() == Some(cap),
    {
        Bridge { left_chan: Pipe::bounded(cap), right_chan: Pipe::bounded(cap) }
    }

    /// Creates the left channel bound to `cap` messages and the right
    /// channel unbounded.
    pub fn left_bounded(cap: usize) -> (b: Self)
        requires
            crate::pipe::bounded_fits::<L>(cap),
        ensures
            b.left_limit() == Some(cap),
            b.right_limit() == None::<usize>,
    {
        Bridge { left_chan: Pipe::bounded(cap), right_chan: Pipe::unbounded() }
    }

    /// Creates the right channel bound to `cap` messages and the left
    /// channel unbounded.
    pub fn right_bounded(cap: usize) -> (b: Self)
        requires
            crate::pipe::bounded_fits::<R>(cap),
        ensures
            b.left_limit() == None::<usize>,
            b.right_limit() == Some(cap),
    {
        Bridge { left_chan: Pipe::unbounded(), right_chan: Pipe::bounded(cap) }
    }

    /// Sends a message from the `Left` to the `Right`, blocking while the
    /// left channel is full. The channel cannot be disconnected, so it
    /// returns `Ok`.
    pub fn send_to_right(&self, msg: L) -> (r: Result<(), SendError<L>>)
        ensures
            r is Ok,
    {
        self.left_chan.send(msg)
    }

    /// Sends a message from the `Right` to the `Left`, blocking while the
    /// right channel is full. It returns `Ok`.
    pub fn send_to_left(&self, msg: R) -> (r: Result<(), SendError<R>>)
        ensures
            r is Ok,
    {
        self.right_chan.send(msg)
    }

    /// Attempts to send a message from the `Left` to the `Right` without
    /// blocking. A refusal means the left channel was full and hands the
    /// message back; an unbounded channel never refuses.
    pub fn try_send_to_right(&self, msg: L) -> (r: Result<(), TrySendError<L>>)
        ensures
            r matches Err(e) ==> e == TrySendError::Full(msg),
            self.left_limit() is None ==> r is Ok,
    {
        self.left_chan.try_send(msg)
    }

    /// Attempts to send a message from the `Right` to the `Left` without
    /// blocking, as `try_send_to_right`.
    pub fn try_send_to_left(&self, msg: R) -> (r: Result<(), TrySendError<R>>)
        ensures
            r matches Err(e) ==> e == TrySendError::Full(msg),
            self.right_limit() is None ==> r is Ok,
    {
        self.right_chan.try_send(msg)
    }

    /// Sends from the `Left` to the `Right`, waiting at most `timeout`. A
    /// refusal is a timeout and hands the message back; an unbounded channel
    /// never times out.
    pub fn send_to_right_timeout(&self, msg: L, timeout: Duration) -> (r: Result<(), SendTimeoutError<L>>)
        ensures
            r matches Err(e) ==> e == SendTimeoutError::Timeout(msg),
            self.left_limit() is None ==> r is Ok,
    {
        self.left_chan.send_timeout(msg, timeout)
    }

    /// Sends from the `Right` to the `Left`, waiting at most `timeout`, as
    /// `send_to_right_timeout`.
    pub fn send_to_left_timeout(&self, msg: R, timeout: Duration) -> (r: Result<(), SendTimeoutError<R>>)
        ensures
            r matches Err(e) ==> e == SendTimeoutError::Timeout(msg),
            self.right_limit() is None ==> r is Ok,
    {
        self.right_chan.send_timeout(msg, timeout)
    }

    /// Sends from the `Left` to the `Right`, waiting until `deadline`, as
    /// `send_to_right_timeout`.
    pub fn send_to_right_deadline(&self, msg: L, deadline: Instant) -> (r: Result<(), SendTimeoutError<L>>)
        ensures
            r matches Err(e) ==> e == SendTimeoutError::Timeout(msg),
            self.left_limit() is None ==> r is Ok,
    {
        self.left_chan.send_deadline(msg, deadline)
    }

    /// Sends from the `Right` to the `Left`, waiting until `deadline`, as
    /// `send_to_right_timeout`.
    pub fn send_to_left_deadline(&self, msg: R, deadline: Instant) -> (r: Result<(), SendTimeoutError<R>>)
        ensures
            r matches Err(e) ==> e == SendTimeoutError::Timeout(msg),
            self.right_limit() is None ==> r is Ok,
    {
        self.right_chan.send_deadline(msg, deadline)
    }

    /// Receives, on the `Right`, a message sent from the `Left`, blocking
    /// while there is none. It returns `Ok`.
    pub fn recv_from_left(&self) -> (r: Result<L, RecvError>)
        ensures
            r is Ok,
    {
        self.left_chan.recv()
    }

    /// Receives, on the `Left`, a message sent from the `Right`, blocking
    /// while there is none. It returns `Ok`.
    pub fn recv_from_right(&self) -> (r: Result<R, RecvError>)
        ensures
            r is Ok,
    {
        self.right_chan.recv()
    }

    /// Attempts to receive, on the `Right`, a message from the `Left`
    /// without blocking; a failure means there was none.
    pub fn try_recv_from_left(&self) -> (r: Result<L, TryRecvError>)
        ensures
            r matches Err(e) ==> e == TryRecvError::Empty,
    {
        self.left_chan.try_recv()
    }

    /// Attempts to receive, on the `Left`, a message from the `Right`
    /// without blocking; a failure means there was none.
    pub fn try_recv_from_right(&self) -> (r: Result<R, TryRecvError>)
        ensures
            r matches Err(e) ==> e == TryRecvError::Empty,
    {
        self.right_chan.try_recv()
    }

    /// Waits at most `timeout` for a message from the `Left`; a failure is a timeout.
    pub fn recv_from_left_timeout(&self, timeout: Duration) -> (r: Result<L, RecvTimeoutError>)
        ensures
            r matches Err(e) ==> e == RecvTimeoutError::Timeout,
    {
        self.left_chan.recv_timeout(timeout)
    }

    /// Waits at most `timeout` for a message from the `Right`; a failure is a timeout.
    pub fn recv_from_right_timeout(&self, timeout: Duration) -> (r: Result<R, RecvTimeoutError>)
        ensures
            r matches Err(e) ==> e == RecvTimeoutError::Timeout,
    {
        self.right_chan.recv_timeout(timeout)
    }

    /// Waits until `deadline` for a message from the `Left`; a failure is a timeout.
    pub fn recv_from_left_deadline(&self, deadline: Instant) -> (r: Result<L, RecvTimeoutError>)
        ensures
            r matches Err(e) ==> e == RecvTimeoutError::Timeout,
    {
        self.left_chan.recv_deadline(deadline)
    }

    /// Waits until `deadline` for a message from the `Right`; a failure is a timeout.
    pub fn recv_from_right_deadline(&self, deadline: Instant) -> (r: Result<R, RecvTimeoutError>)
        ensures
            r matches Err(e) ==> e == RecvTimeoutError::Timeout,
    {
        self.right_chan.recv_deadline(deadline)
    }

    /// A blocking iterator over the `R` messages the `Left` receives.
    pub fn left_receiver_iter(&self) -> Iter<'_, R> {
        self.right_chan.rx_iter()
    }

    /// A blocking iterator over the `L` messages the `Right` receives.
    pub fn right_receiver_iter(&self) -> Iter<'_, L> {
        self.left_chan.rx_iter()
    }

    /// A non-blocking iterator over the `R` messages the `Left` receives.
    pub fn left_receiver_try_iter(&self) -> TryIter<'_, R> {
        self.right_chan.rx_try_iter()
    }

    /// A non-blocking iterator over the `L` messages the `Right` receives.
    pub fn right_receiver_try_iter(&self) -> TryIter<'_, L> {
        self.left_chan.rx_try_iter()
    }

    /// The capacity of the left sender: `None` when unbounded.
    pub fn left_sender_capacity(&self) -> (r: Option<usize>)
        ensures
            r == self.left_limit(),
    {
        self.left_chan.tx_capacity()
    }

    /// The capacity of the right sender: `None` when unbounded.
    pub fn right_sender_capacity(&self) -> (r: Option<usize>)
        ensures
            r == self.right_limit(),
    {
        self.right_chan.tx_capacity()
    }

    /// Whether the left sender's channel is empty; a zero-capacity channel always is.
    pub fn is_left_sender_empty(&self) -> (r: bool)
        ensures
            self.left_limit() == Some(0usize) ==> r,
    {
        self.left_chan.tx_is_empty()
    }

    /// Whether the right sender's channel is empty; a zero-capacity channel always is.
    pub fn is_right_sender_empty(&self) -> (r: bool)
        ensures
            self.right_limit() == Some(0usize) ==> r,
    {
        self.right_chan.tx_is_empty()
    }

    /// Whether the left sender's channel is full: never when unbounded,
    /// always at zero capacity.
    pub fn is_left_sender_full(&self) -> (r: bool)
        ensures
            self.left_limit() is None ==> !r,
            self.left_limit() == Some(0usize) ==> r,
    {
        self.left_chan.tx_is_full()
    }

    /// Whether the right sender's channel is full: never when unbounded,
    /// always at zero capacity.
    pub fn is_right_sender_full(&self) -> (r: bool)
        ensures
            self.right_limit() is None ==> !r,
            self.right_limit() == Some(0usize) ==> r,
    {
        self.right_chan.tx_is_full()
    }

    /// The number of messages in the left sender's channel, at most its capacity.
    pub fn left_sender_len(&self) -> (r: usize)
        ensures
            self.left_limit() matches Some(c) ==> r <= c,
    {
        self.left_chan.tx_len()
    }

    /// The number of messages in the right sender's channel, at most its capacity.
    pub fn right_sender_len(&self) -> (r: usize)
        ensures
            self.right_limit() matches Some(c) ==> r <= c,
    {
        self.right_chan.tx_len()
    }

    /// The capacity of the left receiver (the one the `Right` reads `L`
    /// messages from): `None` when unbounded.
    pub fn left_receiver_capacity(&self) -> (r: Option<usize>)
        ensures
            r == self.left_limit(),
    {
        self.left_chan.rx_capacity()
    }

    /// The capacity of the right receiver (the one the `Left` reads `R`
    /// messages from): `None` when unbounded.
    pub fn right_receiver_capacity(&self) -> (r: Option<usize>)
        ensures
            r == self.right_limit(),
    {
        self.right_chan.rx_capacity()
    }

    /// The number of messages in the left receiver's channel, at most its capacity.
    pub fn left_receiver_len(&self) -> (r: usize)
        ensures
            self.left_limit() matches Some(c) ==> r <= c,
    {
        self.left_chan.rx_len()
    }

    /// The number of messages in the right receiver's channel, at most its capacity.
    pub fn right_receiver_len(&self) -> (r: usize)
        ensures
            self.right_limit() matches Some(c) ==> r <= c,
    {
        self.right_chan.rx_len()
    }

    /// Whether the left receiver's channel is empty; a zero-capacity channel always is.
    pub fn is_left_receiver_empty(&self) -> (r: bool)
        ensures
            self.left_limit() == Some(0usize) ==> r,
    {
        self.left_chan.rx_is_empty()
    }

    /// Whether the right receiver's channel is empty; a zero-capacity channel always is.
    pub fn is_right_receiver_empty(&self) -> (r: bool)
        ensures
            self.right_limit() == Some(0usize) ==> r,
    {
        self.right_chan.rx_is_empty()
    }

    /// Whether the left receiver's channel is full: never when unbounded,
    /// always at zero capacity.
    pub fn is_left_receiver_full(&self) -> (r: bool)
        ensures
            self.left_limit() is None ==> !r,
            self.left_limit() == Some(0usize) ==> r,
    {
        self.left_chan.rx_is_full()
    }

    /// Whether the right receiver's channel is full: never when unbounded,
    /// always at zero capacity.
    pub fn is_right_receiver_full(&self) -> (r: bool)
        ensures
            self.right_limit() is None ==> !r,
            self.right_limit() == Some(0usize) ==> r,
    {
        self.right_chan.rx_is_full()
    }

    /// Whether `other` sends on the left channel: a handle on a channel is
    /// equal to every other handle of the same kind on it.
    pub fn same_channel_left_sender(&self, other: &Sender<L>) -> (r: bool)
        ensures
            r == (*other == self.left_tx()),
    {
        self.left_chan.tx_same_channel(other)
    }

    /// Whether `other` sends on the right channel.
    pub fn same_channel_right_sender(&self, other: &Sender<R>) -> (r: bool)
        ensures
            r == (*other == self.right_tx()),
    {
        self.right_chan.tx_same_channel(other)
    }

    /// Whether `other` receives from the channel the `Left` reads (`R` messages).
    pub fn same_channel_left_receiver(&self, other: &Receiver<R>) -> (r: bool)
        ensures
            r == (*other == self.right_rx()),
    {
        self.right_chan.rx_same_channel(other)
    }

    /// Whether `other` receives from the channel the `Right` reads (`L` messages).
    pub fn same_channel_right_receiver(&self, other: &Receiver<L>) -> (r: bool)
        ensures
            r == (*other == self.left_rx()),
    {
        self.left_chan.rx_same_channel(other)
    }

    /// A clone of the sender on the `Left`.
    pub fn left_sender(&self) -> (r: Sender<L>)
        ensures
            r == self.left_tx(),
    {
        self.left_chan.tx_clone()
    }

    /// A clone of the sender on the `Right`.
    pub fn right_sender(&self) -> (r: Sender<R>)
        ensures
            r == self.right_tx(),
    {
        self.right_chan.tx_clone()
    }

    /// A clone of the receiver on the `Left` (it receives `R` messages).
    pub fn left_receiver(&self) -> (r: Receiver<R>)
        ensures
            r == self.right_rx(),
    {
        self.right_chan.rx_clone()
    }

    /// A clone of the receiver on the `Right` (it receives `L` messages).
    pub fn right_receiver(&self) -> (r: Receiver<L>)
        ensures
            r == self.left_rx(),
    {
        self.left_chan.rx_clone()
    }
}

/// A clone of a bridge shares its channels, and reports the same capacities.
impl<L, R> Clone for Bridge<L, R> {
    fn clone(&self) -> (b: Self)
        ensures
            b.left_tx() == self.left_tx(),
            b.left_rx() == self.left_rx(),
            b.right_tx() == self.right_tx(),
            b.right_rx() == self.right_rx(),
            b.left_limit() == self.left_limit(),
            b.right_limit() == self.right_limit(),
    {
        Bridge { left_chan: self.left_chan.clone(), right_chan: self.right_chan.clone() }
    }
}

/// Whether a bounded channel of `cap` messages of type `T` can be made, that
/// is, whether `bounded_fits::<T>(cap)` holds; callers whose message type has
/// no known layout test this before calling a bounded constructor.
pub fn bounded_capacity_fits<T>(cap: usize) -> (r: bool)
    ensures
        r == crate::pipe::bounded_fits::<T>(cap),
{
    if cap == 0 {
        return true;
    }
    let size = core::mem::size_of::<T>();
    let align = core::mem::align_of::<T>();
    let limit = isize::MAX as usize;
    proof {
        let whole = size as int + align as int + 32;
        assert(cap * whole >= whole) by (nonlinear_arith)
            requires cap >= 1, whole >= 0;
    }
    let slot = match size.checked_add(align) {
        Some(s) => match s.checked_add(32) {
            Some(s) => s,
            None => return false,
        },
        None => return false,
    };
    let buffer = match cap.checked_mul(slot) {
        Some(b) => b,
        None => return false,
    };
    match buffer.checked_add(align) {
        Some(t) => match t.checked_add(8) {
            Some(t) => t <= limit,
            None => false,
        },
        None => false,
    }
}

/// Splits a left channel and a right channel into what each process holds.
fn split<L, R>(left_chan: Pipe<L>, right_chan: Pipe<R>) -> (r: (LeftChannelSplit<L, R>, RightChannelSplit<L, R>))
    ensures
        r.0.0 == left_chan.sender(),
        r.1.1 == left_chan.receiver(),
        r.1.0 == right_chan.sender(),
        r.0.1 == right_chan.receiver(),
{
    let (left_tx, right_rx) = left_chan.into_parts();
    let (right_tx, left_rx) = right_chan.into_parts();
    ((left_tx, left_rx), (right_tx, right_rx))
}

/// Creates two unbounded channels and splits them between the `Left` and the `Right`.
pub fn unbounded_bridge<L, R>() -> (LeftChannelSplit<L, R>, RightChannelSplit<L, R>) {
    split(Pipe::unbounded(), Pipe::unbounded())
}

/// Creates a left channel bound to `left_cap` and a right channel bound to
/// `right_cap`, and splits them between the `Left` and the `Right`.
pub fn bounded_bridge<L, R>(left_cap: usize, right_cap: usize) -> (LeftChannelSplit<L, R>, RightChannelSplit<L, R>)
    requires
        crate::pipe::bounded_fits::<L>(left_cap),
        crate::pipe::bounded_fits::<R>(right_cap),
{
    split(Pipe::bounded(left_cap), Pipe::bounded(right_cap))
}

/// Creates a left channel bound to `cap` and an unbounded right channel,
/// split between the `Left` and the `Right`.
pub fn left_bounded_bridge<L, R>(cap: usize) -> (LeftChannelSplit<L, R>, RightChannelSplit<L, R>)
    requires
        crate::pipe::bounded_fits::<L>(cap),
{
    split(Pipe::bounded(cap), Pipe::unbounded())
}

/// Creates an unbounded left channel and a right channel bound to `cap`,
/// split between the `Left` and the `Right`.
pub fn right_bounded_bridge<L, R>(cap: usize) -> (LeftChannelSplit<L, R>, RightChannelSplit<L, R>)
    requires
        crate::pipe::bounded_fits::<R>(cap),
{
    split(Pipe::unbounded(), Pipe::bounded(cap))
}

} // verus!

//! One crossbeam channel, held by both of its ends.
//!
//! A `Pipe<T>` owns a sender and a receiver of the same channel and records
//! the capacity that the channel was made with. Pipes are made only by
//! `Pipe::unbounded` and `Pipe::bounded`, and copied by `clone`, which takes
//! new handles on the same channel and keeps the capacity; so for every pipe:
//!
//! - `tx` and `rx` are the two ends of one channel, and
//! - `cap` is the capacity that channel was created with.
//!
//! Because the pipe keeps one sender and one receiver alive, crossbeam never
//! disconnects its channel while the pipe can be borrowed. The trusted items
//! below rest on these two facts and on crossbeam's source.
use crossbeam_channel::{
    Iter, Receiver, RecvError, RecvTimeoutError, SendError, SendTimeoutError, Sender, TryIter,
    TryRecvError, TrySendError,
};
use std::time::{Duration, Instant};
use vstd::prelude::*;

verus! {

/// Whether `crossbeam_channel::bounded::<T>(cap)` can lay out its buffer.
///
/// A zero-capacity channel allocates no buffer. A bounded channel of
/// `cap > 0` allocates `cap` slots, each a 64-bit stamp beside a `T`, so a
/// slot takes at most `size_of::<T>() + align_of::<T>() + 32` bytes;
/// crossbeam panics when the buffer cannot be laid out within `isize::MAX`
/// bytes (and when the mark bits of its indices would overflow, which this
/// bound also rules out).
pub open spec fn bounded_fits<T>(cap: usize) -> bool {
    cap == 0 || cap * (vstd::layout::size_of::<T>() + vstd::layout::align_of::<T>() + 32)
        + vstd::layout::align_of::<T>() + 8 <= isize::MAX
}

/// A bounded channel of `cap` messages of a type with a nonzero size fits
/// when `cap` slots of twice that size, plus some slack, fit in `isize::MAX`
/// bytes. The layout facts in `requires` are those that
/// `vstd::layout::layout_for_type_is_valid::<T>()` gives.
pub proof fn lemma_bounded_fits<T>(cap: usize)
    requires
        vstd::layout::align_of::<T>() != 0,
        vstd::layout::size_of::<T>() % vstd::layout::align_of::<T>() == 0,
        vstd::layout::size_of::<T>() > 0,
        cap * (2 * vstd::layout::size_of::<T>() + 32) + vstd::layout::size_of::<T>() + 8 <= isize::MAX,
    ensures
        bounded_fits::<T>(cap),
{
    let s = vstd::layout::size_of::<T>() as int;
    let a = vstd::layout::align_of::<T>() as int;
    assert(a <= s) by {
        vstd::arithmetic::div_mod::lemma_fundamental_div_mod(s, a);
        assert(a <= s) by (nonlinear_arith)
            requires s == a * (s / a) + s % a, s % a == 0, a > 0, s > 0;
    }
    assert(cap * (s + a + 32) <= cap * (2 * s + 32)) by (nonlinear_arith)
        requires a <= s, cap >= 0;
}

/// Trusted: `<Sender<T> as Clone>::clone`. A crossbeam handle is, as a value,
/// its channel's flavor and the pointer to the channel's shared counter; the
/// clone takes another reference on that counter (`acquire`) and keeps both,
/// so it equals the original handle.
pub assume_specification<T>[ <Sender<T> as Clone>::clone ](s: &Sender<T>) -> (c: Sender<T>)
    ensures
        c == *s,
;

/// Trusted: `<Receiver<T> as Clone>::clone`. As for the sender, the clone
/// keeps the flavor and the channel pointer, so it equals the original handle.
pub assume_specification<T>[ <Receiver<T> as Clone>::clone ](r: &Receiver<T>) -> (c: Receiver<T>)
    ensures
        c == *r,
;

/// Both ends of one channel, and the capacity it was made with
/// (`None` for an unbounded channel).
#[derive(Debug)]
#[verifier::reject_recursive_types(T)]
pub(crate) struct Pipe<T> {
    tx: Sender<T>,
    rx: Receiver<T>,
    cap: Option<usize>,
}

impl<T> Pipe<T> {
    /// The capacity the channel was made with: `None` when unbounded,
    /// `Some(0)` for a rendezvous channel.
    pub closed spec fn limit(&self) -> Option<usize> {
        self.cap
    }

    /// Makes an unbounded channel and keeps both its ends.
    ///
    /// Trusted: calls `crossbeam_channel::unbounded`, which makes a list
    /// channel; its ends report no capacity.
    #[verifier::external_body]
    pub(crate) fn unbounded() -> (p: Self)
        ensures
            p.limit() == None::<usize>,
    {
        let (tx, rx) = crossbeam_channel::unbounded::<T>();
        Pipe { tx, rx, cap: None }
    }

    /// Makes a channel that holds at most `cap` messages and keeps both its ends.
    ///
    /// Trusted: calls `crossbeam_channel::bounded`, which makes a zero-capacity
    /// channel for `cap == 0` and an array channel of `cap` slots otherwise;
    /// its ends report capacity `Some(cap)`. It panics only when the buffer
    /// cannot be laid out, which `bounded_fits` rules out.
    #[verifier::external_body]
    pub(crate) fn bounded(cap: usize) -> (p: Self)
        requires
            bounded_fits::<T>(cap),
        ensures
            p.limit() == Some(cap),
    {
        let (tx, rx) = crossbeam_channel::bounded::<T>(cap);
        Pipe { tx, rx, cap: Some(cap) }
    }

    /// The sending end the pipe holds.
    pub closed spec fn sender(&self) -> Sender<T> {
        self.tx
    }

    /// The receiving end the pipe holds.
    pub closed spec fn receiver(&self) -> Receiver<T> {
        self.rx
    }

    /// Gives up the pipe, handing out its sender and its receiver.
    pub(crate) fn into_parts(self) -> (r: (Sender<T>, Receiver<T>))
        ensures
            r.0 == self.sender(),
            r.1 == self.receiver(),
    {
        (self.tx, self.rx)
    }

    // ---- the sending end ----

    /// Trusted: `Sender::send`. Crossbeam reports an error only for a
    /// disconnected channel, and the pipe keeps a receiver alive, so a send
    /// that returns succeeds. (It blocks while a bounded channel is full.)
    #[verifier::external_body]
    pub(crate) fn send(&self, msg: T) -> (r: Result<(), SendError<T>>)
        ensures
            r is Ok,
    {
        self.tx.send(msg)
    }

    /// Trusted: `Sender::try_send`. The channel is never disconnected, so a
    /// refusal means it was full, and the message comes back unchanged. A
    /// list channel never refuses.
    #[verifier::external_body]
    pub(crate) fn try_send(&self, msg: T) -> (r: Result<(), TrySendError<T>>)
        ensures
            r matches Err(e) ==> e == TrySendError::Full(msg),
            self.limit() is None ==> r is Ok,
    {
        self.tx.try_send(msg)
    }

    /// Trusted: `Sender::send_timeout`. A refusal can only be a timeout, and
    /// hands the message back; a list channel never times out a send.
    #[verifier::external_body]
    pub(crate) fn send_timeout(&self, msg: T, timeout: Duration) -> (r: Result<(), SendTimeoutError<T>>)
        ensures
            r matches Err(e) ==> e == SendTimeoutError::Timeout(msg),
            self.limit() is None ==> r is Ok,
    {
        self.tx.send_timeout(msg, timeout)
    }

    /// Trusted: `Sender::send_deadline`, as `send_timeout`.
    #[verifier::external_body]
    pub(crate) fn send_deadline(&self, msg: T, deadline: Instant) -> (r: Result<(), SendTimeoutError<T>>)
        ensures
            r matches Err(e) ==> e == SendTimeoutError::Timeout(msg),
            self.limit() is None ==> r is Ok,
    {
        self.tx.send_deadline(msg, deadline)
    }

    /// Trusted: `Sender::is_empty`. A zero-capacity channel is always empty;
    /// otherwise the answer is a snapshot of a shared queue.
    #[verifier::external_body]
    pub(crate) fn tx_is_empty(&self) -> (r: bool)
        ensures
            self.limit() == Some(0usize) ==> r,
    {
        self.tx.is_empty()
    }

    /// Trusted: `Sender::is_full`. An unbounded channel is never full, a
    /// zero-capacity one always is; otherwise a snapshot.
    #[verifier::external_body]
    pub(crate) fn tx_is_full(&self) -> (r: bool)
        ensures
            self.limit() is None ==> !r,
            self.limit() == Some(0usize) ==> r,
    {
        self.tx.is_full()
    }

    /// Trusted: `Sender::len`. A snapshot, never above a bounded channel's capacity.
    #[verifier::external_body]
    pub(crate) fn tx_len(&self) -> (r: usize)
        ensures
            self.limit() matches Some(c) ==> r <= c,
    {
        self.tx.len()
    }

    /// Trusted: `Sender::capacity`, the capacity the channel was made with.
    #[verifier::external_body]
    pub(crate) fn tx_capacity(&self) -> (r: Option<usize>)
        ensures
            r == self.limit(),
    {
        self.tx.capacity()
    }

    /// Trusted: `Sender::same_channel` compares the two handles' flavors and
    /// channel pointers, which are all a handle holds: it answers whether
    /// `other` equals the pipe's sender.
    #[verifier::external_body]
    pub(crate) fn tx_same_channel(&self, other: &Sender<T>) -> (r: bool)
        ensures
            r == (*other == self.sender()),
    {
        self.tx.same_channel(other)
    }

    /// A new handle on the sending end, through `Sender::clone`.
    pub(crate) fn tx_clone(&self) -> (r: Sender<T>)
        ensures
            r == self.sender(),
    {
        self.tx.clone()
    }

    // ---- the receiving end ----

    /// Trusted: `Receiver::recv`. Crossbeam fails a receive only on an empty,
    /// disconnected channel; the pipe keeps a sender alive, so a receive
    /// that returns has a message. (It blocks while the channel is empty.)
    #[verifier::external_body]
    pub(crate) fn recv(&self) -> (r: Result<T, RecvError>)
        ensures
            r is Ok,
    {
        self.rx.recv()
    }

    /// Trusted: `Receiver::try_recv`. A failure can only mean the channel was empty.
    #[verifier::external_body]
    pub(crate) fn try_recv(&self) -> (r: Result<T, TryRecvError>)
        ensures
            r matches Err(e) ==> e == TryRecvError::Empty,
    {
        self.rx.try_recv()
    }

    /// Trusted: `Receiver::recv_timeout`. A failure can only be a timeout.
    #[verifier::external_body]
    pub(crate) fn recv_timeout(&self, timeout: Duration) -> (r: Result<T, RecvTimeoutError>)
        ensures
            r matches Err(e) ==> e == RecvTimeoutError::Timeout,
    {
        self.rx.recv_timeout(timeout)
    }

    /// Trusted: `Receiver::recv_deadline`. A failure can only be a timeout.
    #[verifier::external_body]
    pub(crate) fn recv_deadline(&self, deadline: Instant) -> (r: Result<T, RecvTimeoutError>)
        ensures
            r matches Err(e) ==> e == RecvTimeoutError::Timeout,
    {
        self.rx.recv_deadline(deadline)
    }

    /// Trusted: `Receiver::is_empty`, as `tx_is_empty`.
    #[verifier::external_body]
    pub(crate) fn rx_is_empty(&self) -> (r: bool)
        ensures
            self.limit() == Some(0usize) ==> r,
    {
        self.rx.is_empty()
    }

    /// Trusted: `Receiver::is_full`, as `tx_is_full`.
    #[verifier::external_body]
    pub(crate) fn rx_is_full(&self) -> (r: bool)
        ensures
            self.limit() is None ==> !r,
            self.limit() == Some(0usize) ==> r,
    {
        self.rx.is_full()
    }

    /// Trusted: `Receiver::len`, as `tx_len`.
    #[verifier::external_body]
    pub(crate) fn rx_len(&self) -> (r: usize)
        ensures
            self.limit() matches Some(c) ==> r <= c,
    {
        self.rx.len()
    }

    /// Trusted: `Receiver::capacity`, the capacity the channel was made with.
    #[verifier::external_body]
    pub(crate) fn rx_capacity(&self) -> (r: Option<usize>)
        ensures
            r == self.limit(),
    {
        self.rx.capacity()
    }

    /// Trusted: `Receiver::same_channel` compares flavors and channel
    /// pointers, as `tx_same_channel`: it answers whether `other` equals the
    /// pipe's receiver.
    #[verifier::external_body]
    pub(crate) fn rx_same_channel(&self, other: &Receiver<T>) -> (r: bool)
        ensures
            r == (*other == self.receiver()),
    {
        self.rx.same_channel(other)
    }

    /// A new handle on the receiving end, through `Receiver::clone`.
    pub(crate) fn rx_clone(&self) -> (r: Receiver<T>)
        ensures
            r == self.receiver(),
    {
        self.rx.clone()
    }

    /// Trusted: `Receiver::iter`, a blocking iterator borrowing the receiver.
    #[verifier::external_body]
    pub(crate) fn rx_iter(&self) -> Iter<'_, T> {
        self.rx.iter()
    }

    /// Trusted: `Receiver::try_iter`, a non-blocking iterator borrowing the receiver.
    #[verifier::external_body]
    pub(crate) fn rx_try_iter(&self) -> TryIter<'_, T> {
        self.rx.try_iter()
    }
}

/// A clone holds handles on the same channel, and keeps the capacity.
impl<T> Clone for Pipe<T> {
    fn clone(&self) -> (p: Self)
        ensures
            p.sender() == self.sender(),
            p.receiver() == self.receiver(),
            p.limit() == self.limit(),
    {
        Pipe { tx: self.tx.clone(), rx: self.rx.clone(), cap: self.cap }
    }
}

} // verus!

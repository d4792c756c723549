//! The types of crossbeam's channel API that the library hands on.
use crossbeam_channel::{
    Iter, Receiver, RecvError, RecvTimeoutError, SendError, SendTimeoutError, Sender, TryIter,
    TryRecvError, TrySendError,
};
use vstd::prelude::*;

verus! {

/// The sending end of a crossbeam channel; opaque.
#[verifier::external_type_specification]
#[verifier::external_body]
#[verifier::reject_recursive_types(T)]
pub struct ExSender<T>(Sender<T>);

/// The receiving end of a crossbeam channel; opaque.
#[verifier::external_type_specification]
#[verifier::external_body]
#[verifier::reject_recursive_types(T)]
pub struct ExReceiver<T>(Receiver<T>);

/// A blocking iterator over a receiver; opaque.
#[verifier::external_type_specification]
#[verifier::external_body]
#[verifier::reject_recursive_types(T)]
pub struct ExIter<'a, T>(Iter<'a, T>);

/// A non-blocking iterator over a receiver; opaque.
#[verifier::external_type_specification]
#[verifier::external_body]
#[verifier::reject_recursive_types(T)]
pub struct ExTryIter<'a, T>(TryIter<'a, T>);

/// A point in time, for deadlines; opaque.
#[verifier::external_type_specification]
#[verifier::external_body]
pub struct ExInstant(std::time::Instant);

/// The error of a blocking send: it hands the message back.
#[verifier::external_type_specification]
#[verifier::reject_recursive_types(T)]
pub struct ExSendError<T>(SendError<T>);

/// The error of a non-blocking send: full or disconnected, with the message.
#[verifier::external_type_specification]
#[verifier::reject_recursive_types(T)]
pub struct ExTrySendError<T>(TrySendError<T>);

/// The error of a send with a time limit: timed out or disconnected, with the message.
#[verifier::external_type_specification]
#[verifier::reject_recursive_types(T)]
pub struct ExSendTimeoutError<T>(SendTimeoutError<T>);

/// The error of a blocking receive: the channel is empty and disconnected.
#[verifier::external_type_specification]
pub struct ExRecvError(RecvError);

/// The error of a non-blocking receive: empty or disconnected.
#[verifier::external_type_specification]
pub struct ExTryRecvError(TryRecvError);

/// The error of a receive with a time limit: timed out or disconnected.
#[verifier::external_type_specification]
pub struct ExRecvTimeoutError(RecvTimeoutError);

} // verus!

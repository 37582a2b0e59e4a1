//! Completion handles, channels and the slot table, as the runtime and the
//! hashing crate provide them.
//!
//! A completion handle is a single-use channel: one side resolves it once,
//! the other side waits for the value. Dropping the writing end unresolved is
//! what the waiting side sees as a failure.

use vstd::prelude::*;
use bytes::Bytes;
use rustc_hash::FxHashMap;
use tokio::sync::mpsc;
use tokio::sync::oneshot;
use crate::error::ReqError;

verus! {

/// `tokio::sync::oneshot::Sender`: the writing end of a single-use channel.
#[verifier::external_type_specification]
#[verifier::external_body]
#[verifier::reject_recursive_types(T)]
pub struct ExOneshotSender<T>(oneshot::Sender<T>);

/// `tokio::sync::oneshot::Receiver`: the reading end of a single-use channel.
#[verifier::external_type_specification]
#[verifier::external_body]
#[verifier::reject_recursive_types(T)]
pub struct ExOneshotReceiver<T>(oneshot::Receiver<T>);

/// `tokio::sync::oneshot::error::RecvError`: the writing end was dropped unused.
///
/// Nothing here handles a value of it. The reading end is a future whose
/// output names this type, and Verus wants every type known that an impl of a
/// declared type names.
#[verifier::external_type_specification]
#[verifier::external_body]
pub struct ExRecvError(oneshot::error::RecvError);

/// `tokio::sync::mpsc::Sender`: a writing end of a bounded queue.
#[verifier::external_type_specification]
#[verifier::external_body]
#[verifier::reject_recursive_types(T)]
pub struct ExMpscSender<T>(mpsc::Sender<T>);

/// `tokio::sync::mpsc::Receiver`: the reading end of a bounded queue.
#[verifier::external_type_specification]
#[verifier::external_body]
#[verifier::reject_recursive_types(T)]
pub struct ExMpscReceiver<T>(mpsc::Receiver<T>);

/// `tokio::sync::mpsc::error::TrySendError`: why a value could not be queued
/// without waiting. Either way the value comes back inside.
#[verifier::external_type_specification]
#[verifier::reject_recursive_types(T)]
pub struct ExTrySendError<T>(mpsc::error::TrySendError<T>);

/// `rustc_hash::FxBuildHasher`: builds the hashers of an `FxHashMap`.
#[verifier::external_type_specification]
#[verifier::external_body]
pub struct ExFxBuildHasher(rustc_hash::FxBuildHasher);

/// `tokio::sync::oneshot::channel`: makes the two ends of a fresh single-use
/// channel. Nothing is claimed of them.
pub assume_specification<T>[ oneshot::channel::<T> ]() -> (ends: (
    oneshot::Sender<T>,
    oneshot::Receiver<T>,
))
;

/// `tokio::sync::oneshot::Sender::send`: tries to resolve the channel with
/// `value`. Whether it succeeds depends on the reading end; when it fails, the
/// value that could not be delivered is handed back.
pub assume_specification<T>[ oneshot::Sender::<T>::send ](
    tx: oneshot::Sender<T>,
    value: T,
) -> (outcome: Result<(), T>)
    ensures
        outcome matches Err(back) ==> back == value,
;

/// `tokio::sync::mpsc::channel`: makes a bounded queue that holds up to
/// `buffer` values. It panics on a capacity of zero and on one above the
/// semaphore's limit, which the precondition leaves out.
pub assume_specification<T>[ mpsc::channel::<T> ](buffer: usize) -> (ends: (
    mpsc::Sender<T>,
    mpsc::Receiver<T>,
))
    requires
        0 < buffer <= usize::MAX / 8,
;

/// `tokio::sync::mpsc::Sender::try_send`: queues `message` if there is room and
/// the reading end is alive. Whether it does depends on the queue; when it
/// does not, the message comes back inside the error.
pub assume_specification<T>[ mpsc::Sender::<T>::try_send ](
    tx: &mpsc::Sender<T>,
    message: T,
) -> (outcome: Result<(), mpsc::error::TrySendError<T>>)
    ensures
        outcome matches Err(mpsc::error::TrySendError::Full(back)) ==> back == message,
        outcome matches Err(mpsc::error::TrySendError::Closed(back)) ==> back == message,
;

/// The writing end through which a waiting caller gets its reply or an error.
pub type ReplyHandle = oneshot::Sender<Result<Bytes, ReqError>>;

/// The table of pending reply slots: correlation identifier to caller handle.
pub type SlotTable = FxHashMap<u32, ReplyHandle>;

/// `HashMap::insert` on a table hashed by `FxBuildHasher`: the table then maps
/// `id` to `handle` and is otherwise unchanged; the handle that `id` was mapped
/// to before, if any, is returned.
#[verifier::external_body]
pub(crate) fn slot_insert(table: &mut SlotTable, id: u32, handle: ReplyHandle) -> (prev: Option<
    ReplyHandle,
>)
    ensures
        final(table)@ == old(table)@.insert(id, handle),
        prev == (if old(table)@.contains_key(id) {
            Some(old(table)@[id])
        } else {
            None
        }),
{
    table.insert(id, handle)
}

/// `HashMap::remove` on a table hashed by `FxBuildHasher`: the table no longer
/// holds `id` and is otherwise unchanged; the handle that `id` was mapped to,
/// if any, is returned.
#[verifier::external_body]
pub(crate) fn slot_remove(table: &mut SlotTable, id: u32) -> (found: Option<ReplyHandle>)
    ensures
        final(table)@ == old(table)@.remove(id),
        found == (if old(table)@.contains_key(id) {
            Some(old(table)@[id])
        } else {
            None
        }),
{
    table.remove(&id)
}

} // verus!

//! The response slot: a one-shot channel that carries the single reply of a
//! command back to the caller that issued it.
//!
//! The render domain holds the sending half and is its only writer; the
//! caller holds the receiving half. Writing consumes the sending half, so a
//! slot is written at most once. A sending half that is dropped unwritten is
//! seen by the caller as a dropped channel.
use tokio::sync::oneshot::error::RecvError;
use tokio::sync::oneshot::{Receiver, Sender};
use vstd::prelude::*;

verus! {

/// The sending half of `tokio::sync::oneshot`, carried as an opaque value.
#[verifier::external_type_specification]
#[verifier::external_body]
#[verifier::reject_recursive_types(T)]
pub struct ExSender<T>(Sender<T>);

/// The receiving half of `tokio::sync::oneshot`, carried as an opaque value.
#[verifier::external_type_specification]
#[verifier::external_body]
#[verifier::reject_recursive_types(T)]
pub struct ExReceiver<T>(Receiver<T>);

/// What waiting on a receiving half yields when its sending half was dropped
/// unwritten (`tokio::sync::oneshot::error::RecvError`); opaque.
#[verifier::external_type_specification]
#[verifier::external_body]
pub struct ExRecvError(RecvError);

/// Calls `tokio::sync::oneshot::channel`, which creates the two halves of a
/// fresh slot. Nothing is claimed of them.
#[verifier::external_body]
pub(crate) fn open_slot<T>() -> (halves: (Sender<T>, Receiver<T>)) {
    tokio::sync::oneshot::channel()
}

/// Calls `tokio::sync::oneshot::Sender::send`, which never waits. Where the
/// receiving half is gone the value is handed back, and that is all the
/// contract claims: whether a written value is ever read is up to the
/// receiving side.
#[verifier::external_body]
pub(crate) fn write_slot<T>(slot: Sender<T>, value: T) -> (unsent: Result<(), T>)
    ensures
        unsent matches Err(v) ==> v == value,
{
    slot.send(value)
}

} // verus!

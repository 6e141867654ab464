//! Mailboxes: the bounded, ordered conduits through which sessions exchange
//! frames.
//!
//! Each session owns one mailbox. The sending half is shared through the
//! registry so that other sessions can deposit frames; the receiving half
//! stays with the session's relay duty, which drains deposits onto the
//! session's own outbound writer. Deposits are best-effort: a deposit into a
//! full or closed mailbox is reported as failed and otherwise ignored.

use crate::frame::Frame;
use vstd::prelude::*;

verus! {

/// The sending half of a mailbox, as the registry stores it.
#[verifier::external_type_specification]
#[verifier::external_body]
#[verifier::reject_recursive_types(T)]
pub struct ExSender<T>(tokio::sync::broadcast::Sender<T>);

/// The receiving half of a mailbox, drained by its session's relay duty.
#[verifier::external_type_specification]
#[verifier::external_body]
#[verifier::reject_recursive_types(T)]
pub struct ExReceiver<T>(tokio::sync::broadcast::Receiver<T>);

/// Relies on `tokio::sync::broadcast::channel`: creates a bounded conduit
/// and returns its two halves. The call panics on a zero capacity and on one
/// above half the address space, so those are excluded here.
#[verifier::external_body]
pub(crate) fn open_mailbox(capacity: usize) -> (r: (
    tokio::sync::broadcast::Sender<Frame>,
    tokio::sync::broadcast::Receiver<Frame>,
))
    requires
        0 < capacity <= usize::MAX / 2,
{
    tokio::sync::broadcast::channel(capacity)
}

/// Relies on `tokio::sync::broadcast::Sender::clone`: the result is another
/// sending handle onto the same mailbox.
#[verifier::external_body]
pub(crate) fn clone_handle(
    handle: &tokio::sync::broadcast::Sender<Frame>,
) -> tokio::sync::broadcast::Sender<Frame> {
    handle.clone()
}

/// Relies on `tokio::sync::broadcast::Sender::send`: deposits one frame into
/// the mailbox behind `handle`. Whether the deposit lands depends on the
/// mailbox's state at the instant of the call, so nothing is promised of the
/// result: `true` reports that the mailbox accepted the frame, `false` that
/// it was closed. The relay ignores the report either way.
#[verifier::external_body]
pub(crate) fn deposit(handle: &tokio::sync::broadcast::Sender<Frame>, frame: Frame) -> bool {
    handle.send(frame).is_ok()
}

} // verus!

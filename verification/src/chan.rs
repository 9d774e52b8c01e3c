//! The bounded typed channel between the real-time side and the worker.
//!
//! The queue itself is crossbeam's. The library states only what crossbeam's
//! source shows and what the real-time path needs: an enqueue attempt that
//! never blocks and, when it fails, hands the message back unchanged. How the
//! messages come out again is the worker loop's business, outside the
//! verified core.

use vstd::prelude::*;

use crate::msg::Message;

verus! {

/// Declares crossbeam_channel::Sender so it can stand in signatures; the
/// handle is opaque to the verifier, and everything stated about it lives in
/// the two wrappers below.
#[verifier::external_type_specification]
#[verifier::external_body]
#[verifier::reject_recursive_types(T)]
pub struct ExSender<T>(crossbeam_channel::Sender<T>);

/// The outcome of one non-blocking enqueue attempt.
pub enum EnqueueResult {
    /// The channel took the message.
    Accepted,
    /// The channel was full; the message comes back untouched and is the
    /// caller's to drop and count.
    Full(Message),
    /// The worker side is gone; the message comes back untouched.
    Closed(Message),
}

/// Relies on crossbeam_channel::Sender::try_send: it never blocks, and on a
/// full or disconnected channel it returns the message unchanged.
#[verifier::external_body]
pub(crate) fn try_send_message(
    sender: &crossbeam_channel::Sender<Message>,
    m: Message,
) -> (r: EnqueueResult)
    ensures
        r matches EnqueueResult::Full(back) ==> back == m,
        r matches EnqueueResult::Closed(back) ==> back == m,
{
    match sender.try_send(m) {
        Ok(()) => EnqueueResult::Accepted,
        Err(crossbeam_channel::TrySendError::Full(back)) => EnqueueResult::Full(back),
        Err(crossbeam_channel::TrySendError::Disconnected(back)) => EnqueueResult::Closed(back),
    }
}

/// Relies on crossbeam_channel::Sender::send: it blocks until there is room,
/// and fails only when the channel is disconnected, returning the message
/// unchanged.
#[verifier::external_body]
pub(crate) fn send_message_blocking(
    sender: &crossbeam_channel::Sender<Message>,
    m: Message,
) -> (r: Option<Message>)
    ensures
        r matches Some(back) ==> back == m,
{
    match sender.send(m) {
        Ok(()) => None,
        Err(crossbeam_channel::SendError(back)) => Some(back),
    }
}

} // verus!

use vstd::prelude::*;
use crate::message::Message;
use tokio::sync::broadcast;
use tokio::sync::mpsc;

verus! {

#[verifier::external_type_specification]
#[verifier::external_body]
#[verifier::reject_recursive_types(T)]
pub struct ExBroadcastSender<T>(broadcast::Sender<T>);

#[verifier::external_type_specification]
#[verifier::external_body]
#[verifier::reject_recursive_types(T)]
pub struct ExBroadcastReceiver<T>(broadcast::Receiver<T>);

#[verifier::external_type_specification]
#[verifier::external_body]
#[verifier::reject_recursive_types(T)]
pub struct ExMpscSender<T>(mpsc::Sender<T>);

#[verifier::external_type_specification]
#[verifier::external_body]
#[verifier::reject_recursive_types(T)]
pub struct ExMpscReceiver<T>(mpsc::Receiver<T>);

/// A message that could not be handed to any receiver; it comes back unsent.
#[derive(Debug)]
pub struct SendError(pub Message);

/// Why a message could not be queued without waiting; it comes back unsent.
#[derive(Debug)]
pub enum TrySendError {
    /// The queue has no free slot.
    Full(Message),
    /// The receiving side is gone.
    Closed(Message),
}

impl TrySendError {
    /// The message that was not sent.
    pub open spec fn message(self) -> Message {
        match self {
            TrySendError::Full(m) => m,
            TrySendError::Closed(m) => m,
        }
    }
}

/// Why nothing was received from the broadcast channel.
#[derive(Debug, Clone, Copy, PartialEq, Eq)]
pub enum RecvError {
    /// Every sender is gone.
    Closed,
    /// The receiver fell behind and this many messages were skipped.
    Lagged(u64),
}

/// `tokio::sync::broadcast::channel`: a new broadcast channel and its first
/// receiver. Tokio panics on a capacity of 0 or above `usize::MAX / 2`, which
/// `requires` leaves out; the handles are opaque, so nothing is stated of them.
#[verifier::external_body]
pub(crate) fn broadcast_channel(capacity: usize) -> (broadcast::Sender<Message>, broadcast::Receiver<Message>)
    requires
        0 < capacity <= usize::MAX / 2,
{
    broadcast::channel(capacity)
}

/// `tokio::sync::broadcast::Sender::subscribe`: a new receiver of what is sent
/// after the call. Tokio panics once `usize::MAX >> 2` receivers are alive at
/// the same time, a count that depends on the state of the channel and is not
/// stated here.
#[verifier::external_body]
pub(crate) fn broadcast_subscribe(tx: &broadcast::Sender<Message>) -> broadcast::Receiver<Message> {
    tx.subscribe()
}

/// `tokio::sync::broadcast::Sender::send`. Whether it succeeds depends on the
/// receivers alive at that moment; what holds either way: on success the count
/// of receivers is at least one, on failure the message comes back unchanged.
#[verifier::external_body]
pub(crate) fn broadcast_send(tx: &broadcast::Sender<Message>, msg: Message) -> (r: Result<usize, SendError>)
    ensures
        match r {
            Ok(n) => n >= 1,
            Err(e) => e.0 == msg,
        },
{
    match tx.send(msg) {
        Ok(n) => Ok(n),
        Err(e) => Err(SendError(e.0)),
    }
}

/// `tokio::sync::mpsc::channel`: a bounded queue for one receiver. Tokio panics
/// on a buffer of 0 or above `usize::MAX >> 3`, which `requires` leaves out.
#[verifier::external_body]
pub(crate) fn mpsc_channel(buffer: usize) -> (mpsc::Sender<Message>, mpsc::Receiver<Message>)
    requires
        0 < buffer <= usize::MAX / 8,
{
    mpsc::channel(buffer)
}

/// `tokio::sync::mpsc::Sender::try_send`. Whether it succeeds depends on the
/// queue at that moment; on failure the message comes back unchanged, marked
/// `Full` or `Closed` as tokio reports it.
#[verifier::external_body]
pub(crate) fn mpsc_try_send(tx: &mpsc::Sender<Message>, msg: Message) -> (r: Result<(), TrySendError>)
    ensures
        r matches Err(e) ==> e.message() == msg,
{
    match tx.try_send(msg) {
        Ok(()) => Ok(()),
        Err(mpsc::error::TrySendError::Full(m)) => Err(TrySendError::Full(m)),
        Err(mpsc::error::TrySendError::Closed(m)) => Err(TrySendError::Closed(m)),
    }
}

/// `Clone for tokio::sync::mpsc::Sender`: another handle on the same queue.
/// The handle is opaque, so nothing is stated of it.
#[verifier::external_body]
pub(crate) fn mpsc_sender_clone(tx: &mpsc::Sender<Message>) -> mpsc::Sender<Message> {
    tx.clone()
}

/// `r` is the outcome of sending exactly `msg` on `tx`, with the count of
/// receivers left out.
pub closed spec fn broadcast_outcome(
    tx: broadcast::Sender<Message>,
    msg: Message,
    r: Result<(), SendError>,
) -> bool {
    exists|sent: Result<usize, SendError>|
        #[trigger] call_ensures(broadcast_send, (&tx, msg), sent) && r == match sent {
            Ok(_) => Ok::<(), SendError>(()),
            Err(e) => Err(e),
        }
}

/// `r` is the outcome of queueing exactly `msg` on `tx` without waiting.
pub closed spec fn try_send_outcome(
    tx: mpsc::Sender<Message>,
    msg: Message,
    r: Result<(), TrySendError>,
) -> bool {
    call_ensures(mpsc_try_send, (&tx, msg), r)
}

/// What one call of `broadcast_send` gave is a `broadcast_outcome`.
pub(crate) proof fn lemma_broadcast_outcome(
    tx: broadcast::Sender<Message>,
    msg: Message,
    sent: Result<usize, SendError>,
)
    requires
        call_ensures(broadcast_send, (&tx, msg), sent),
    ensures
        broadcast_outcome(
            tx,
            msg,
            match sent {
                Ok(_) => Ok::<(), SendError>(()),
                Err(e) => Err(e),
            },
        ),
{
}

/// What one call of `mpsc_try_send` gave is a `try_send_outcome`.
pub(crate) proof fn lemma_try_send_outcome(
    tx: mpsc::Sender<Message>,
    msg: Message,
    r: Result<(), TrySendError>,
)
    requires
        call_ensures(mpsc_try_send, (&tx, msg), r),
    ensures
        try_send_outcome(tx, msg, r),
{
}

} // verus!

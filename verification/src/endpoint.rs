use vstd::prelude::*;
use crate::message::Message;
use crate::router::Router;
use crate::channel::{
    lemma_try_send_outcome, mpsc_sender_clone, mpsc_try_send, try_send_outcome, RecvError, SendError, TrySendError,
};
use std::sync::Arc;
use tokio::sync::broadcast;
use tokio::sync::mpsc;

verus! {

/// A connection's access to the broadcast channel: it can always send, and it
/// receives when it holds a receiver.
pub struct BroadcastEndpoint {
    router: Arc<Router>,
    receiver: Option<broadcast::Receiver<Message>>,
}

impl BroadcastEndpoint {
    /// The router this endpoint sends through.
    pub closed spec fn router(&self) -> Arc<Router> {
        self.router
    }

    /// Whether this endpoint receives broadcasts.
    pub closed spec fn has_receiver(&self) -> bool {
        self.receiver is Some
    }

    /// An endpoint that sends and receives, subscribed from now on.
    pub fn with_receiver(router: Arc<Router>) -> (e: Self)
        ensures
            e.router() == router,
            e.has_receiver(),
    {
        BroadcastEndpoint { receiver: Some(router.subscribe()), router }
    }

    /// An endpoint that only sends.
    pub fn send_only(router: Arc<Router>) -> (e: Self)
        ensures
            e.router() == router,
            !e.has_receiver(),
    {
        BroadcastEndpoint { receiver: None, router }
    }

    /// Broadcasts `msg` through the router; with no receiver subscribed it
    /// comes back in the error. The outcome is the router's for this very message.
    pub fn send(&self, msg: Message) -> (r: Result<(), SendError>)
        ensures
            r matches Err(e) ==> e.0 == msg,
            call_ensures(Router::broadcast, (&*self.router(), msg), r),
    {
        self.router.broadcast(msg)
    }

    /// The receiver to wait on, or `RecvError::Closed` for an endpoint that
    /// only sends.
    pub fn recv_source(&mut self) -> (src: Result<&mut broadcast::Receiver<Message>, RecvError>)
        ensures
            final(self).router() == old(self).router(),
            final(self).has_receiver() == old(self).has_receiver(),
            src is Ok <==> old(self).has_receiver(),
            src matches Err(e) ==> e == RecvError::Closed,
    {
        match self.receiver.as_mut() {
            Some(r) => Ok(r),
            None => Err(RecvError::Closed),
        }
    }
}

impl Clone for BroadcastEndpoint {
    /// Another endpoint on the same router; it only sends.
    fn clone(&self) -> (e: Self)
        ensures
            e.router() == self.router(),
            !e.has_receiver(),
    {
        BroadcastEndpoint { router: Arc::clone(&self.router), receiver: None }
    }
}

/// A connection's private queue: the sending handle others reach it through,
/// and the receiving end it reads from.
pub struct PrivateEndpoint {
    sender: Option<mpsc::Sender<Message>>,
    receiver: Option<mpsc::Receiver<Message>>,
}

impl PrivateEndpoint {
    /// The sending handle of this endpoint's queue, if it has one.
    pub closed spec fn sender(&self) -> Option<mpsc::Sender<Message>> {
        self.sender
    }

    /// The receiving end of this endpoint's queue, if it has one.
    pub closed spec fn receiver(&self) -> Option<mpsc::Receiver<Message>> {
        self.receiver
    }

    /// Whether this endpoint can send.
    pub closed spec fn has_sender(&self) -> bool {
        self.sender is Some
    }

    /// Whether this endpoint can receive.
    pub closed spec fn has_receiver(&self) -> bool {
        self.receiver is Some
    }

    /// An endpoint with both ends of a private queue: it sends through `s`
    /// and receives from `r`.
    pub fn with_sender_receiver(s: mpsc::Sender<Message>, r: mpsc::Receiver<Message>) -> (e: Self)
        ensures
            e.has_sender(),
            e.has_receiver(),
            e.sender() == Some(s),
            e.receiver() == Some(r),
    {
        PrivateEndpoint { sender: Some(s), receiver: Some(r) }
    }

    /// Queues `msg` if there is room at once. Without a sender the message
    /// comes back as `Closed`; any failure gives the message back.
    pub fn try_send(&self, msg: Message) -> (r: Result<(), TrySendError>)
        ensures
            !self.has_sender() ==> r == Err::<(), TrySendError>(TrySendError::Closed(msg)),
            r matches Err(e) ==> e.message() == msg,
            self.sender() matches Some(tx) ==> try_send_outcome(tx, msg, r),
    {
        match &self.sender {
            Some(s) => {
                let r = mpsc_try_send(s, msg);
                proof {
                    lemma_try_send_outcome(*s, msg, r);
                }
                r
            },
            None => Err(TrySendError::Closed(msg)),
        }
    }

    /// The sender to wait on with `msg`, or the message back when there is none.
    pub fn send_target(&self, msg: Message) -> (t: Result<(&mpsc::Sender<Message>, Message), SendError>)
        ensures
            t is Ok <==> self.has_sender(),
            match t {
                Ok((_, m)) => m == msg,
                Err(e) => e.0 == msg,
            },
    {
        match &self.sender {
            Some(s) => Ok((s, msg)),
            None => Err(SendError(msg)),
        }
    }

    /// The receiver to wait on, if this endpoint has one.
    pub fn recv_source(&mut self) -> (src: Option<&mut mpsc::Receiver<Message>>)
        ensures
            final(self).sender() == old(self).sender(),
            src matches Some(rx) ==> old(self).receiver() == Some(*rx),
            final(self).has_sender() == old(self).has_sender(),
            final(self).has_receiver() == old(self).has_receiver(),
            src is Some <==> old(self).has_receiver(),
    {
        self.receiver.as_mut()
    }
}

impl Clone for PrivateEndpoint {
    /// Another handle on the same queue; it can send, never receive.
    fn clone(&self) -> (e: Self)
        ensures
            e.has_sender() == self.has_sender(),
            !e.has_receiver(),
    {
        let sender = match &self.sender {
            Some(s) => Some(mpsc_sender_clone(s)),
            None => None,
        };
        PrivateEndpoint { sender, receiver: None }
    }
}

/// An endpoint built from a queue's two ends sends through the given sender
/// and receives from the given receiver, and what it queues goes on that very
/// sender.
pub proof fn law_private_endpoint_uses_given_queue(
    s: mpsc::Sender<Message>,
    r: mpsc::Receiver<Message>,
    e: PrivateEndpoint,
    msg: Message,
    sent: Result<(), TrySendError>,
)
    requires
        call_ensures(PrivateEndpoint::with_sender_receiver, (s, r), e),
        call_ensures(PrivateEndpoint::try_send, (&e, msg), sent),
    ensures
        e.sender() == Some(s),
        e.receiver() == Some(r),
        try_send_outcome(s, msg, sent),
{
}

} // verus!

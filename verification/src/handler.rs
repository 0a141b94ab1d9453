use vstd::prelude::*;
use vstd::string::*;
use crate::message::{display_text, Message};
use crate::router::Router;
use crate::endpoint::{BroadcastEndpoint, PrivateEndpoint};
use crate::channel::{broadcast_outcome, try_send_outcome, RecvError, SendError, TrySendError};
use std::sync::Arc;
use tokio::sync::mpsc;

verus! {

/// One client connection: its byte streams, the router, its two endpoints and
/// its peer name.
pub struct Handler<R, W> {
    reader: R,
    writer: W,
    router: Arc<Router>,
    broadcast: BroadcastEndpoint,
    private: PrivateEndpoint,
    peer: String,
}

/// The half of a connection that reads the client's lines.
pub struct HandlerReader<R> {
    pub reader: R,
    pub router: Arc<Router>,
    pub broadcast: BroadcastEndpoint,
    pub private: PrivateEndpoint,
    pub peer: String,
}

/// The half of a connection that writes messages to the client.
pub struct HandlerWriter<W> {
    pub writer: W,
    pub broadcast: BroadcastEndpoint,
    pub private: PrivateEndpoint,
    pub peer: String,
}

impl<R, W> Handler<R, W> {
    pub closed spec fn reader(&self) -> R {
        self.reader
    }

    pub closed spec fn writer(&self) -> W {
        self.writer
    }

    pub closed spec fn router(&self) -> Arc<Router> {
        self.router
    }

    pub closed spec fn broadcast(&self) -> BroadcastEndpoint {
        self.broadcast
    }

    pub closed spec fn private(&self) -> PrivateEndpoint {
        self.private
    }

    pub closed spec fn peer(&self) -> String {
        self.peer
    }

    /// A connection for `peer`: subscribed to broadcasts on `router`, and
    /// owning both ends of its private queue.
    pub fn new(
        reader: R,
        writer: W,
        router: Arc<Router>,
        private_tx: mpsc::Sender<Message>,
        private_rx: mpsc::Receiver<Message>,
        peer: String,
    ) -> (h: Self)
        ensures
            h.reader() == reader,
            h.writer() == writer,
            h.router() == router,
            h.broadcast().router() == router,
            h.broadcast().has_receiver(),
            h.private().has_sender(),
            h.private().has_receiver(),
            h.private().sender() == Some(private_tx),
            h.private().receiver() == Some(private_rx),
            h.peer() == peer,
    {
        let broadcast = BroadcastEndpoint::with_receiver(Arc::clone(&router));
        let private = PrivateEndpoint::with_sender_receiver(private_tx, private_rx);
        Handler { reader, writer, router, broadcast, private, peer }
    }

    /// Splits the connection in two. The reading half gets sending handles
    /// only; the writing half keeps the receivers.
    pub fn split(self) -> (parts: (HandlerReader<R>, HandlerWriter<W>))
        ensures
            parts.0.reader == self.reader(),
            parts.0.router == self.router(),
            parts.0.broadcast.router() == self.broadcast().router(),
            !parts.0.broadcast.has_receiver(),
            parts.0.private.has_sender() == self.private().has_sender(),
            !parts.0.private.has_receiver(),
            parts.0.peer == self.peer(),
            parts.1.writer == self.writer(),
            parts.1.broadcast == self.broadcast(),
            parts.1.private == self.private(),
            parts.1.peer == self.peer(),
    {
        let reader_part = HandlerReader {
            reader: self.reader,
            router: Arc::clone(&self.router),
            broadcast: self.broadcast.clone(),
            private: self.private.clone(),
            peer: self.peer.clone(),
        };
        let writer_part = HandlerWriter {
            writer: self.writer,
            broadcast: self.broadcast,
            private: self.private,
            peer: self.peer,
        };
        (reader_part, writer_part)
    }
}

impl<R> HandlerReader<R> {
    /// Broadcasts `text` as said by this connection's peer: the outcome is
    /// that of sending exactly `Message::Broadcast { from: peer, body: text }`
    /// through the broadcast endpoint; with no receiver subscribed the message
    /// comes back in the error.
    pub fn broadcast_text(&self, text: String) -> (r: Result<(), SendError>)
        ensures
            r matches Err(e) ==> e.0 == (Message::Broadcast { from: self.peer, body: text }),
            call_ensures(
                BroadcastEndpoint::send,
                (&self.broadcast, Message::Broadcast { from: self.peer, body: text }),
                r,
            ),
    {
        let msg = Message::broadcast(self.peer.clone(), text);
        self.broadcast.send(msg)
    }

    /// Answers this connection's own client with a system message, if its
    /// queue has room: the outcome is that of queueing exactly
    /// `Message::System(text)` through the private endpoint. Without a private
    /// sender the answer is refused as `Closed`.
    pub fn reply(&self, text: String) -> (r: Result<(), TrySendError>)
        ensures
            !self.private.has_sender() ==> r == Err::<(), TrySendError>(
                TrySendError::Closed(Message::System(text)),
            ),
            r matches Err(e) ==> e.message() == Message::System(text),
            call_ensures(PrivateEndpoint::try_send, (&self.private, Message::System(text)), r),
    {
        self.private.try_send(Message::system(text))
    }
}

/// A connection owns the private queue it was made with: its private endpoint
/// sends through `private_tx` and receives from `private_rx`, so whatever is
/// queued on a clone of `private_tx` (the handle the registry holds) reaches it.
pub proof fn law_connection_owns_its_queue<R, W>(
    reader: R,
    writer: W,
    router: Arc<Router>,
    private_tx: mpsc::Sender<Message>,
    private_rx: mpsc::Receiver<Message>,
    peer: String,
    h: Handler<R, W>,
)
    requires
        call_ensures(
            Handler::<R, W>::new,
            (reader, writer, router, private_tx, private_rx, peer),
            h,
        ),
    ensures
        h.private().sender() == Some(private_tx),
        h.private().receiver() == Some(private_rx),
        h.peer() == peer,
{
}

/// Broadcasting a line hands the broadcast channel exactly the message from
/// the connection's peer with the whole line as its body; the outcome is that
/// of sending this message.
pub proof fn law_broadcast_text_sends_whole_line<R>(
    reader: HandlerReader<R>,
    text: String,
    r: Result<(), SendError>,
)
    requires
        call_ensures(HandlerReader::<R>::broadcast_text, (&reader, text), r),
    ensures
        broadcast_outcome(
            (*reader.broadcast.router()).broadcaster(),
            Message::Broadcast { from: reader.peer, body: text },
            r,
        ),
{
}

/// Replying queues exactly the server message with the whole text on the
/// connection's own private queue.
pub proof fn law_reply_queues_whole_text<R>(
    reader: HandlerReader<R>,
    text: String,
    tx: mpsc::Sender<Message>,
    r: Result<(), TrySendError>,
)
    requires
        call_ensures(HandlerReader::<R>::reply, (&reader, text), r),
        reader.private.sender() == Some(tx),
    ensures
        try_send_outcome(tx, Message::System(text), r),
{
}

/// What the writing half waited for and got.
pub enum WriterEvent {
    /// The private queue gave a message, or `None` once it is closed.
    Private(Option<Message>),
    /// The broadcast receiver gave a message or an error.
    Broadcast(Result<Message, RecvError>),
}

/// Why the writing half passes over an event.
#[derive(Debug, Clone, Copy, PartialEq, Eq)]
pub enum Ignored {
    /// The client's own broadcast, which it already knows.
    OwnMessage,
    /// Something other than a broadcast came on the broadcast channel.
    NotBroadcast,
    /// The receiver fell behind and this many messages were lost.
    Lagged(u64),
}

/// What the writing half does next.
#[derive(Debug)]
pub enum WriterAction {
    /// Write this text to the client.
    Write(String),
    /// Write nothing and wait again.
    Ignore(Ignored),
    /// The connection's output is finished.
    Stop,
}

/// The line written to a client for `msg`: its display text and a line break.
pub open spec fn output_line(msg: Message) -> Seq<char> {
    display_text(msg) + "\n"@
}

/// The mathematical value of a [`WriterAction`].
pub enum WriterStep {
    Write(Seq<char>),
    Ignore(Ignored),
    Stop,
}

impl View for WriterAction {
    type V = WriterStep;

    open spec fn view(&self) -> WriterStep {
        match self {
            WriterAction::Write(t) => WriterStep::Write(t@),
            WriterAction::Ignore(i) => WriterStep::Ignore(*i),
            WriterAction::Stop => WriterStep::Stop,
        }
    }
}

/// What the writing half of `peer`'s connection does with an event: private
/// messages are written and a closed private queue ends the output; broadcasts
/// from other peers are written, the peer's own and anything that is not a
/// broadcast are passed over, a lag is passed over, and a closed broadcast
/// channel ends the output.
pub open spec fn writer_step(peer: Seq<char>, event: WriterEvent) -> WriterStep {
    match event {
        WriterEvent::Private(Some(m)) => WriterStep::Write(output_line(m)),
        WriterEvent::Private(None) => WriterStep::Stop,
        WriterEvent::Broadcast(Ok(m)) => match m {
            Message::Broadcast { from, body: _ } => if from@ == peer {
                WriterStep::Ignore(Ignored::OwnMessage)
            } else {
                WriterStep::Write(output_line(m))
            },
            _ => WriterStep::Ignore(Ignored::NotBroadcast),
        },
        WriterEvent::Broadcast(Err(RecvError::Lagged(n))) => WriterStep::Ignore(Ignored::Lagged(n)),
        WriterEvent::Broadcast(Err(RecvError::Closed)) => WriterStep::Stop,
    }
}

/// A client is never sent its own broadcast back.
pub proof fn law_no_echo(peer: Seq<char>, from: String, body: String)
    requires
        from@ == peer,
    ensures
        writer_step(peer, WriterEvent::Broadcast(Ok(Message::Broadcast { from, body })))
            == WriterStep::Ignore(Ignored::OwnMessage),
{
}

/// Every private message reaches the client, as its display line; so does
/// every broadcast from another peer.
pub proof fn law_delivery(peer: Seq<char>, m: Message)
    ensures
        writer_step(peer, WriterEvent::Private(Some(m))) == WriterStep::Write(output_line(m)),
        m matches Message::Broadcast { from, body: _ } && from@ != peer ==> writer_step(
            peer,
            WriterEvent::Broadcast(Ok(m)),
        ) == WriterStep::Write(output_line(m)),
{
}

/// The output ends exactly when one of the two channels is closed.
pub proof fn law_stop_on_close(peer: Seq<char>, event: WriterEvent)
    ensures
        writer_step(peer, event) is Stop <==> (event matches WriterEvent::Private(None)
            || event matches WriterEvent::Broadcast(Err(RecvError::Closed))),
{
}

impl<W> HandlerWriter<W> {
    /// The text written to the client for `msg`.
    pub fn render(&self, msg: &Message) -> (out: String)
        ensures
            out@ == output_line(*msg),
    {
        msg.to_display_for(self.peer.as_str()).concat("\n")
    }

    /// Decides what to do with one event, as `writer_step` says.
    pub fn on_event(&self, event: WriterEvent) -> (action: WriterAction)
        ensures
            action@ == writer_step(self.peer@, event),
    {
        match event {
            WriterEvent::Private(Some(m)) => WriterAction::Write(self.render(&m)),
            WriterEvent::Private(None) => WriterAction::Stop,
            WriterEvent::Broadcast(Ok(m)) => {
                let own = match &m {
                    Message::Broadcast { from, body: _ } => Some(*from == self.peer),
                    _ => None,
                };
                match own {
                    Some(true) => WriterAction::Ignore(Ignored::OwnMessage),
                    Some(false) => WriterAction::Write(self.render(&m)),
                    None => WriterAction::Ignore(Ignored::NotBroadcast),
                }
            },
            WriterEvent::Broadcast(Err(RecvError::Lagged(n))) => WriterAction::Ignore(
                Ignored::Lagged(n),
            ),
            WriterEvent::Broadcast(Err(RecvError::Closed)) => WriterAction::Stop,
        }
    }
}

} // verus!

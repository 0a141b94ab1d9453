use vstd::prelude::*;
use vstd::string::*;

verus! {

/// A connected client: its address and its nickname.
pub struct Peer {
    pub addr: String,
    pub nick: String,
}

/// A chat message as it travels between connections.
#[derive(Clone, Debug)]
pub enum Message {
    Broadcast { from: String, body: String },
    Private { from: String, body: String },
    System(String),
}

/// The text shown for a message: `from: body`, `(private) from: body` or `server: text`.
pub open spec fn display_text(m: Message) -> Seq<char> {
    match m {
        Message::Broadcast { from, body } => from@ + ": "@ + body@,
        Message::Private { from, body } => "(private) "@ + from@ + ": "@ + body@,
        Message::System(text) => "server: "@ + text@,
    }
}

impl Message {
    /// A message for everyone, from `from`.
    pub fn broadcast(from: String, body: String) -> (m: Message)
        ensures
            m == (Message::Broadcast { from, body }),
    {
        Message::Broadcast { from, body }
    }

    /// A message for one client, from `from`.
    pub fn private(from: String, body: String) -> (m: Message)
        ensures
            m == (Message::Private { from, body }),
    {
        Message::Private { from, body }
    }

    /// A message from the server itself.
    pub fn system(text: String) -> (m: Message)
        ensures
            m == Message::System(text),
    {
        Message::System(text)
    }

    /// The message's display text, the same that [`Message::to_display_for`] gives.
    pub fn to_string(&self) -> (out: String)
        ensures
            out@ == display_text(*self),
    {
        match self {
            Message::Broadcast { from, body } => from.clone().concat(": ").concat(body.as_str()),
            Message::Private { from, body } => String::from_str("(private) ").concat(
                from.as_str(),
            ).concat(": ").concat(body.as_str()),
            Message::System(text) => String::from_str("server: ").concat(text.as_str()),
        }
    }

    /// Renders the message for a viewer; every viewer sees the same text.
    pub fn to_display_for(&self, _viewer: &str) -> (out: String)
        ensures
            out@ == display_text(*self),
    {
        match self {
            Message::Broadcast { from, body } => {
                let mut out = from.clone();
                out.append(": ");
                out.append(body.as_str());
                out
            },
            Message::Private { from, body } => {
                let mut out = String::from_str("(private) ");
                out.append(from.as_str());
                out.append(": ");
                out.append(body.as_str());
                out
            },
            Message::System(text) => {
                let mut out = String::from_str("server: ");
                out.append(text.as_str());
                out
            },
        }
    }
}

/// Whoever views it, a broadcast is shown as the whole sender name, a colon and
/// a space, then the whole body.
pub proof fn law_broadcast_display(from: String, body: String, viewer: &str, out: String)
    requires
        call_ensures(Message::to_display_for, (&Message::Broadcast { from, body }, viewer), out),
    ensures
        out@ == from@ + seq![':', ' '] + body@,
        out@.len() == from@.len() + 2 + body@.len(),
        out@.subrange(0, from@.len() as int) == from@,
        out@.subrange(from@.len() + 2int, out@.len() as int) == body@,
{
    reveal_strlit(": ");
    assert(": "@ =~= seq![':', ' ']);
    assert((from@ + seq![':', ' '] + body@).subrange(0, from@.len() as int) =~= from@);
    assert((from@ + seq![':', ' '] + body@).subrange(from@.len() + 2int, out@.len() as int) =~= body@);
}

/// Whoever views it, a private message is shown as `(private) `, the whole
/// sender name, a colon and a space, then the whole body.
pub proof fn law_private_display(from: String, body: String, viewer: &str, out: String)
    requires
        call_ensures(Message::to_display_for, (&Message::Private { from, body }, viewer), out),
    ensures
        out@ == seq!['(', 'p', 'r', 'i', 'v', 'a', 't', 'e', ')', ' '] + from@ + seq![':', ' ']
            + body@,
{
    reveal_strlit(": ");
    reveal_strlit("(private) ");
    assert(": "@ =~= seq![':', ' ']);
    assert("(private) "@ =~= seq!['(', 'p', 'r', 'i', 'v', 'a', 't', 'e', ')', ' ']);
}

/// Whoever views it, a server message is shown as `server: ` and the whole text.
pub proof fn law_system_display(text: String, viewer: &str, out: String)
    requires
        call_ensures(Message::to_display_for, (&Message::System(text), viewer), out),
    ensures
        out@ == seq!['s', 'e', 'r', 'v', 'e', 'r', ':', ' '] + text@,
{
    reveal_strlit("server: ");
    assert("server: "@ =~= seq!['s', 'e', 'r', 'v', 'e', 'r', ':', ' ']);
}

/// A message's text is the same whoever views it, and `to_string` gives that
/// same text.
pub proof fn law_display_same_for_all(m: Message, a: &str, b: &str, out_a: String, out_b: String, text: String)
    requires
        call_ensures(Message::to_display_for, (&m, a), out_a),
        call_ensures(Message::to_display_for, (&m, b), out_b),
        call_ensures(Message::to_string, (&m,), text),
    ensures
        out_a@ == out_b@,
        out_a@ == text@,
{
}

} // verus!

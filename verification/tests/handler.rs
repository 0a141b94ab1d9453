use chat_server::channel::RecvError;
use chat_server::handler::{Handler, Ignored, WriterAction, WriterEvent};
use chat_server::message::Message;
use chat_server::router::Router;
use std::sync::Arc;

fn handler_for(peer: &str) -> Handler<Vec<u8>, Vec<u8>> {
    let router = Arc::new(Router::new());
    let (tx, rx) = router.new_private_channel();
    Handler::new(b"input".to_vec(), Vec::new(), router, tx, rx, peer.to_string())
}

#[test]
fn split_keeps_streams_and_peer() {
    let (reader, writer) = handler_for("p1").split();
    assert_eq!(reader.reader, b"input".to_vec());
    assert!(writer.writer.is_empty());
    assert_eq!(reader.peer, "p1");
    assert_eq!(writer.peer, "p1");
}

#[test]
fn split_gives_receivers_to_the_writer() {
    let (mut reader, mut writer) = handler_for("p1").split();
    assert_eq!(reader.broadcast.recv_source().err(), Some(RecvError::Closed));
    assert!(reader.private.recv_source().is_none());
    assert!(writer.broadcast.recv_source().is_ok());
    assert!(writer.private.recv_source().is_some());
}

#[test]
fn reader_reply_reaches_writer() {
    let (reader, mut writer) = handler_for("p1").split();
    reader.reply("echo hi".to_string()).unwrap();
    let m = writer.private.recv_source().unwrap().try_recv().unwrap();
    assert_eq!(writer.render(&m), "server: echo hi\n");
}

#[test]
fn broadcast_text_is_signed_by_peer() {
    let (reader, mut writer) = handler_for("p1").split();
    reader.broadcast_text("hello".to_string()).unwrap();
    let m = writer.broadcast.recv_source().ok().unwrap().try_recv().unwrap();
    match &m {
        Message::Broadcast { from, body } => {
            assert_eq!(from, "p1");
            assert_eq!(body, "hello");
        }
        _ => panic!("not a broadcast"),
    }
    assert!(matches!(
        writer.on_event(WriterEvent::Broadcast(Ok(m))),
        WriterAction::Ignore(Ignored::OwnMessage)
    ));
}

fn written(action: WriterAction) -> String {
    match action {
        WriterAction::Write(t) => t,
        other => panic!("expected a write, got {:?}", other),
    }
}

#[test]
fn writer_writes_private_messages() {
    let (_reader, writer) = handler_for("me").split();
    let a = writer.on_event(WriterEvent::Private(Some(Message::private(
        "you".to_string(),
        "secret".to_string(),
    ))));
    assert_eq!(written(a), "(private) you: secret\n");
}

#[test]
fn writer_writes_others_broadcasts() {
    let (_reader, writer) = handler_for("me").split();
    let a = writer.on_event(WriterEvent::Broadcast(Ok(Message::broadcast(
        "you".to_string(),
        "hey".to_string(),
    ))));
    assert_eq!(written(a), "you: hey\n");
}

#[test]
fn writer_passes_over_the_rest() {
    let (_reader, writer) = handler_for("me").split();
    assert!(matches!(
        writer.on_event(WriterEvent::Broadcast(Ok(Message::broadcast(
            "me".to_string(),
            "mine".to_string()
        )))),
        WriterAction::Ignore(Ignored::OwnMessage)
    ));
    assert!(matches!(
        writer.on_event(WriterEvent::Broadcast(Ok(Message::system("s".to_string())))),
        WriterAction::Ignore(Ignored::NotBroadcast)
    ));
    assert!(matches!(
        writer.on_event(WriterEvent::Broadcast(Err(RecvError::Lagged(3)))),
        WriterAction::Ignore(Ignored::Lagged(3))
    ));
}

#[test]
fn writer_stops_when_a_channel_closes() {
    let (_reader, writer) = handler_for("me").split();
    assert!(matches!(writer.on_event(WriterEvent::Private(None)), WriterAction::Stop));
    assert!(matches!(
        writer.on_event(WriterEvent::Broadcast(Err(RecvError::Closed))),
        WriterAction::Stop
    ));
}

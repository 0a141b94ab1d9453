use chat_server::channel::{RecvError, TrySendError};
use chat_server::endpoint::{BroadcastEndpoint, PrivateEndpoint};
use chat_server::message::Message;
use chat_server::router::{Router, PRIVATE_CAPACITY};
use std::sync::Arc;

#[test]
fn receiving_endpoint_gets_broadcasts() {
    let router = Arc::new(Router::new());
    let mut ep = BroadcastEndpoint::with_receiver(router.clone());
    ep.send(Message::broadcast("me".to_string(), "hi".to_string())).unwrap();
    let rx = ep.recv_source().ok().unwrap();
    assert_eq!(rx.try_recv().unwrap().to_string(), "me: hi");
}

#[test]
fn send_only_endpoint_has_nothing_to_receive() {
    let router = Arc::new(Router::new());
    let mut ep = BroadcastEndpoint::send_only(router);
    assert_eq!(ep.recv_source().err(), Some(RecvError::Closed));
    match ep.send(Message::system("nobody".to_string())) {
        Err(e) => assert_eq!(e.0.to_string(), "server: nobody"),
        Ok(()) => panic!("no receiver exists"),
    }
}

#[test]
fn cloned_broadcast_endpoint_only_sends() {
    let router = Arc::new(Router::new());
    let mut ep = BroadcastEndpoint::with_receiver(router);
    let mut copy = ep.clone();
    assert_eq!(copy.recv_source().err(), Some(RecvError::Closed));
    copy.send(Message::broadcast("c".to_string(), "d".to_string())).unwrap();
    assert_eq!(ep.recv_source().ok().unwrap().try_recv().unwrap().to_string(), "c: d");
}

#[test]
fn private_endpoint_round_trip() {
    let router = Router::new();
    let (tx, rx) = router.new_private_channel();
    let mut ep = PrivateEndpoint::with_sender_receiver(tx, rx);
    ep.try_send(Message::system("one".to_string())).unwrap();
    let r = ep.recv_source().unwrap();
    assert_eq!(r.try_recv().unwrap().to_string(), "server: one");
}

#[test]
fn private_endpoint_fills_up() {
    let router = Router::new();
    let (tx, rx) = router.new_private_channel();
    let ep = PrivateEndpoint::with_sender_receiver(tx, rx);
    for i in 0..PRIVATE_CAPACITY {
        ep.try_send(Message::system(format!("{}", i))).unwrap();
    }
    match ep.try_send(Message::system("overflow".to_string())) {
        Err(TrySendError::Full(m)) => assert_eq!(m.to_string(), "server: overflow"),
        other => panic!("expected Full, got {:?}", other),
    }
}

#[test]
fn private_endpoint_after_receiver_dropped_is_closed() {
    let router = Router::new();
    let (tx, rx) = router.new_private_channel();
    let ep = PrivateEndpoint::with_sender_receiver(tx, rx);
    let copy = ep.clone();
    drop(ep);
    match copy.try_send(Message::system("late".to_string())) {
        Err(TrySendError::Closed(m)) => assert_eq!(m.to_string(), "server: late"),
        other => panic!("expected Closed, got {:?}", other),
    }
}

#[test]
fn cloned_private_endpoint_sends_into_same_queue() {
    let router = Router::new();
    let (tx, rx) = router.new_private_channel();
    let mut ep = PrivateEndpoint::with_sender_receiver(tx, rx);
    let mut copy = ep.clone();
    assert!(copy.recv_source().is_none());
    copy.try_send(Message::system("via copy".to_string())).unwrap();
    assert_eq!(ep.recv_source().unwrap().try_recv().unwrap().to_string(), "server: via copy");
    match copy.send_target(Message::system("t".to_string())) {
        Ok((_, m)) => assert_eq!(m.to_string(), "server: t"),
        Err(_) => panic!("the copy has a sender"),
    }
}

use chat_server::message::{Message, Peer};

#[test]
fn broadcast_is_shown_with_its_sender() {
    let m = Message::broadcast("alice".to_string(), "hello all".to_string());
    assert_eq!(m.to_display_for("bob"), "alice: hello all");
}

#[test]
fn private_is_marked_private() {
    let m = Message::private("alice".to_string(), "psst".to_string());
    assert_eq!(m.to_display_for("bob"), "(private) alice: psst");
}

#[test]
fn system_is_shown_as_server() {
    let m = Message::system("clients [a, b]".to_string());
    assert_eq!(m.to_display_for("a"), "server: clients [a, b]");
}

#[test]
fn display_does_not_depend_on_viewer() {
    let msgs = vec![
        Message::broadcast("x".to_string(), "y".to_string()),
        Message::private("x".to_string(), "".to_string()),
        Message::system("".to_string()),
    ];
    for m in &msgs {
        assert_eq!(m.to_display_for("one"), m.to_display_for("other"));
        assert_eq!(m.to_display_for(""), m.to_string());
    }
}

#[test]
fn constructors_fill_the_fields() {
    match Message::broadcast("a".to_string(), "b".to_string()) {
        Message::Broadcast { from, body } => {
            assert_eq!(from, "a");
            assert_eq!(body, "b");
        }
        _ => panic!("not a broadcast"),
    }
    match Message::private("c".to_string(), "d".to_string()) {
        Message::Private { from, body } => {
            assert_eq!(from, "c");
            assert_eq!(body, "d");
        }
        _ => panic!("not private"),
    }
    assert!(matches!(Message::system("e".to_string()), Message::System(t) if t == "e"));
}

#[test]
fn empty_parts_are_kept() {
    let m = Message::broadcast("".to_string(), "".to_string());
    assert_eq!(m.to_string(), ": ");
    let p = Message::private("ü".to_string(), "ñ".to_string());
    assert_eq!(p.to_string(), "(private) ü: ñ");
}

#[test]
fn peer_holds_address_and_nick() {
    let p = Peer { addr: "127.0.0.1:5000".to_string(), nick: "neo".to_string() };
    assert_eq!(p.addr, "127.0.0.1:5000");
    assert_eq!(p.nick, "neo");
}

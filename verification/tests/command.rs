use chat_server::command::{
    clients_reply, not_connected, parse_line, plan_command, private_reply, same_text,
    CommandPlan, Request,
};

fn expect_command(req: Request) -> (String, String) {
    match req {
        Request::Command { cmd, args } => (cmd, args),
        Request::Text(t) => panic!("expected a command, got text {:?}", t),
    }
}

fn expect_text(req: Request) -> String {
    match req {
        Request::Text(t) => t,
        Request::Command { cmd, .. } => panic!("expected text, got command {:?}", cmd),
    }
}

#[test]
fn plain_line_is_broadcast_text() {
    assert_eq!(expect_text(parse_line("hello world\n")), "hello world");
    assert_eq!(expect_text(parse_line("  keep leading space\r\n")), "  keep leading space");
}

#[test]
fn empty_line_is_empty_text() {
    assert_eq!(expect_text(parse_line("\n")), "");
    assert_eq!(expect_text(parse_line("")), "");
    assert_eq!(expect_text(parse_line("   \t\n")), "");
}

#[test]
fn slash_after_space_is_text() {
    assert_eq!(expect_text(parse_line(" /msg bob hi\n")), " /msg bob hi");
}

#[test]
fn command_with_arguments() {
    assert_eq!(
        expect_command(parse_line("/msg bob hello there\n")),
        ("msg".to_string(), "bob hello there".to_string())
    );
}

#[test]
fn command_parts_are_trimmed() {
    assert_eq!(
        expect_command(parse_line("/echo    spaced   out   \n")),
        ("echo".to_string(), "spaced   out".to_string())
    );
}

#[test]
fn command_without_arguments() {
    assert_eq!(expect_command(parse_line("/list\n")), ("list".to_string(), "".to_string()));
    assert_eq!(expect_command(parse_line("/\n")), ("".to_string(), "".to_string()));
    assert_eq!(expect_command(parse_line("/ \n")), ("".to_string(), "".to_string()));
}

#[test]
fn tab_is_not_a_separator() {
    assert_eq!(
        expect_command(parse_line("/echo\tx y\n")),
        ("echo\tx".to_string(), "y".to_string())
    );
}

fn reply_text(plan: CommandPlan) -> String {
    match plan {
        CommandPlan::Reply(t) => t,
        other => panic!("expected a reply, got {:?}", other),
    }
}

#[test]
fn msg_plans_a_private_message() {
    match plan_command("msg", "bob hi there") {
        CommandPlan::SendPrivate { target, body } => {
            assert_eq!(target, "bob");
            assert_eq!(body, "hi there");
        }
        other => panic!("unexpected {:?}", other),
    }
}

#[test]
fn msg_without_body_gives_usage() {
    assert_eq!(reply_text(plan_command("msg", "bob")), "usage: /msg <target> <message>");
    assert_eq!(reply_text(plan_command("msg", "")), "usage: /msg <target> <message>");
    assert_eq!(reply_text(plan_command("msg", "bob    ")), "usage: /msg <target> <message>");
}

#[test]
fn msg_with_leading_space_has_empty_target() {
    assert_eq!(reply_text(plan_command("msg", " bob hi")), "usage: /msg <target> <message>");
}

#[test]
fn echo_answers_its_arguments() {
    assert_eq!(reply_text(plan_command("echo", "ping pong")), "echo ping pong");
    assert_eq!(reply_text(plan_command("echo", "")), "echo ");
}

#[test]
fn list_plans_a_listing() {
    assert!(matches!(plan_command("list", "ignored"), CommandPlan::ListClients));
}

#[test]
fn unknown_command_is_named() {
    assert_eq!(reply_text(plan_command("nope", "x")), "unknown command '/nope'");
    assert_eq!(reply_text(plan_command("", "")), "unknown command '/'");
    assert_eq!(reply_text(plan_command("MSG", "a b")), "unknown command '/MSG'");
}

#[test]
fn answer_texts() {
    assert_eq!(not_connected("carol"), "user 'carol' not connected");
    assert_eq!(private_reply("bob", &Ok(())), "private to bob sent");
    assert_eq!(
        private_reply("bob", &Err("user 'bob' not connected".to_string())),
        "user 'bob' not connected"
    );
    assert_eq!(clients_reply("a, b"), "clients [a, b]");
    assert_eq!(clients_reply(""), "clients []");
}

#[test]
fn same_text_compares_chars() {
    assert!(same_text("msg", "msg"));
    assert!(!same_text("msg", "msgs"));
    assert!(!same_text("", "a"));
}

/// The reader loop and command handling written directly with std, for comparison.
fn reference(line: &str) -> Option<String> {
    let line = line.trim_end().to_string();
    if !line.starts_with('/') {
        return None;
    }
    let rest = &line[1..];
    let mut parts = rest.splitn(2, ' ');
    let cmd = parts.next().unwrap_or("").trim();
    let args = parts.next().unwrap_or("").trim();
    Some(match cmd {
        "msg" => {
            let mut parts = args.splitn(2, ' ');
            let target = parts.next().unwrap_or("").trim();
            let body = parts.next().unwrap_or("").trim();
            if target.is_empty() || body.is_empty() {
                "usage".to_string()
            } else {
                format!("send {} {}", target, body)
            }
        }
        "echo" => format!("echo {}", args),
        "list" => "list".to_string(),
        _ => format!("unknown command '/{}'", cmd),
    })
}

#[test]
fn agrees_with_reference_handler() {
    let lines = [
        "/msg bob hi\n",
        "/msg   bob   hi  there \r\n",
        "/msg bob\n",
        "/echo \u{3000}wide\u{3000}\n",
        "/list\n",
        "/lis\n",
        "/\n",
        "hello\n",
        "/msg\u{a0}bob hi\n",
    ];
    for l in lines.iter() {
        let ours = match parse_line(l) {
            Request::Text(_) => None,
            Request::Command { cmd, args } => Some(match plan_command(&cmd, &args) {
                CommandPlan::Reply(t) => {
                    if t == "usage: /msg <target> <message>" {
                        "usage".to_string()
                    } else {
                        t
                    }
                }
                CommandPlan::SendPrivate { target, body } => format!("send {} {}", target, body),
                CommandPlan::ListClients => "list".to_string(),
            }),
        };
        assert_eq!(ours, reference(l), "line {:?}", l);
    }
}

use vstd::prelude::*;
use vstd::string::*;
use crate::text::{
    after_space, before_space, first_space, is_white_space, lemma_first_space_prefix,
    lemma_trim_end_append_space, lemma_trim_of_trimmed, split_first_word, trim_end,
    trim_end_seq, trim_seq,
};

verus! {

/// What one input line asks for: text to broadcast, or a `/command` with its arguments.
#[derive(Debug)]
pub enum Request {
    Text(String),
    Command { cmd: String, args: String },
}

/// A line is a command when, with trailing white space removed, it starts with `/`.
pub open spec fn is_command(raw: Seq<char>) -> bool {
    let line = trim_end_seq(raw);
    line.len() > 0 && line[0] == '/'
}

/// What follows the `/` of a command line.
pub open spec fn command_body(raw: Seq<char>) -> Seq<char> {
    trim_end_seq(raw).drop_first()
}

/// The command word of a command line: its first space-separated part, trimmed.
pub open spec fn command_name(raw: Seq<char>) -> Seq<char> {
    trim_seq(before_space(command_body(raw)))
}

/// The arguments of a command line: what follows the first space, trimmed.
pub open spec fn command_args(raw: Seq<char>) -> Seq<char> {
    trim_seq(after_space(command_body(raw)))
}

/// Reads one line as the connection's reader does: the trailing white space
/// (the line break among it) goes; a line that then starts with `/` is a
/// command, any other line is text for everyone.
pub fn parse_line(raw: &str) -> (req: Request)
    ensures
        match req {
            Request::Text(text) => !is_command(raw@) && text@ == trim_end_seq(raw@),
            Request::Command { cmd, args } => {
                &&& is_command(raw@)
                &&& cmd@ == command_name(raw@)
                &&& args@ == command_args(raw@)
            },
        },
{
    let line = trim_end(raw);
    if !line.is_empty() && line.get_char(0) == '/' {
        let rest = line.substring_char(1, line.unicode_len());
        assert(rest@ =~= command_body(raw@));
        let (cmd, args) = split_first_word(rest);
        Request::Command { cmd: cmd.to_owned(), args: args.to_owned() }
    } else {
        Request::Text(line.to_owned())
    }
}

/// Whether two strings hold the same characters.
pub fn same_text(a: &str, b: &str) -> (same: bool)
    ensures
        same == (a@ == b@),
{
    a.to_owned() == b.to_owned()
}

/// What the server does for a command, as a value.
#[derive(Debug)]
pub enum CommandPlan {
    /// Answer the sender with this system text.
    Reply(String),
    /// Deliver `body` privately to the client named `target`.
    SendPrivate { target: String, body: String },
    /// Answer the sender with the list of connected clients.
    ListClients,
}

/// The mathematical value of a [`CommandPlan`].
pub enum PlanSpec {
    Reply(Seq<char>),
    SendPrivate(Seq<char>, Seq<char>),
    ListClients,
}

impl View for CommandPlan {
    type V = PlanSpec;

    open spec fn view(&self) -> PlanSpec {
        match self {
            CommandPlan::Reply(text) => PlanSpec::Reply(text@),
            CommandPlan::SendPrivate { target, body } => PlanSpec::SendPrivate(target@, body@),
            CommandPlan::ListClients => PlanSpec::ListClients,
        }
    }
}

pub open spec fn usage_text() -> Seq<char> {
    "usage: /msg <target> <message>"@
}

pub open spec fn echo_text(args: Seq<char>) -> Seq<char> {
    "echo "@ + args
}

pub open spec fn unknown_command_text(cmd: Seq<char>) -> Seq<char> {
    "unknown command '/"@ + cmd + "'"@
}

pub open spec fn private_sent_text(target: Seq<char>) -> Seq<char> {
    "private to "@ + target + " sent"@
}

pub open spec fn not_connected_text(user: Seq<char>) -> Seq<char> {
    "user '"@ + user + "' not connected"@
}

pub open spec fn clients_text(list: Seq<char>) -> Seq<char> {
    "clients ["@ + list + "]"@
}

/// The plan for command `cmd` with arguments `args`:
/// `/msg <target> <message>` sends privately (both parts must be non-empty,
/// else the usage text is the answer), `/echo` answers with its arguments,
/// `/list` lists the clients, and anything else is answered as unknown.
pub open spec fn command_plan(cmd: Seq<char>, args: Seq<char>) -> PlanSpec {
    if cmd == "msg"@ {
        let target = trim_seq(before_space(args));
        let body = trim_seq(after_space(args));
        if target.len() == 0 || body.len() == 0 {
            PlanSpec::Reply(usage_text())
        } else {
            PlanSpec::SendPrivate(target, body)
        }
    } else if cmd == "echo"@ {
        PlanSpec::Reply(echo_text(args))
    } else if cmd == "list"@ {
        PlanSpec::ListClients
    } else {
        PlanSpec::Reply(unknown_command_text(cmd))
    }
}

/// Decides what a command asks the server to do.
pub fn plan_command(cmd: &str, args: &str) -> (plan: CommandPlan)
    ensures
        plan@ == command_plan(cmd@, args@),
{
    if same_text(cmd, "msg") {
        let (target, body) = split_first_word(args);
        if target.is_empty() || body.is_empty() {
            CommandPlan::Reply(String::from_str("usage: /msg <target> <message>"))
        } else {
            CommandPlan::SendPrivate { target: target.to_owned(), body: body.to_owned() }
        }
    } else if same_text(cmd, "echo") {
        CommandPlan::Reply(String::from_str("echo ").concat(args))
    } else if same_text(cmd, "list") {
        CommandPlan::ListClients
    } else {
        CommandPlan::Reply(String::from_str("unknown command '/").concat(cmd).concat("'"))
    }
}

/// The error text for a private message to a user who is not connected.
pub fn not_connected(user: &str) -> (text: String)
    ensures
        text@ == not_connected_text(user@),
{
    String::from_str("user '").concat(user).concat("' not connected")
}

/// The answer to the sender of `/msg` once delivery to `target` is known.
pub fn private_reply(target: &str, outcome: &Result<(), String>) -> (text: String)
    ensures
        match outcome {
            Ok(()) => text@ == private_sent_text(target@),
            Err(e) => text@ == e@,
        },
{
    match outcome {
        Ok(()) => String::from_str("private to ").concat(target).concat(" sent"),
        Err(e) => e.clone(),
    }
}

/// The answer to `/list`, given the listed clients.
pub fn clients_reply(list: &str) -> (text: String)
    ensures
        text@ == clients_text(list@),
{
    String::from_str("clients [").concat(list).concat("]")
}

/// A command word as a client types it: not empty, no white space in it.
pub open spec fn is_word(s: Seq<char>) -> bool {
    s.len() > 0 && forall|i: int| 0 <= i < s.len() ==> !is_white_space(#[trigger] s[i])
}

/// Text without white space at either end (possibly empty).
pub open spec fn is_trimmed(s: Seq<char>) -> bool {
    s.len() == 0 || (!is_white_space(s[0]) && !is_white_space(s.last()))
}

/// Reading back a command line: the line `/cmd args`, followed by any line
/// ending, is read as the command `cmd` with the arguments `args`.
pub proof fn law_command_line(cmd: Seq<char>, args: Seq<char>, ending: Seq<char>)
    requires
        is_word(cmd),
        is_trimmed(args),
        forall|i: int| 0 <= i < ending.len() ==> is_white_space(#[trigger] ending[i]),
    ensures
        is_command(seq!['/'] + cmd + seq![' '] + args + ending),
        command_name(seq!['/'] + cmd + seq![' '] + args + ending) == cmd,
        command_args(seq!['/'] + cmd + seq![' '] + args + ending) == args,
{
    let head = seq!['/'] + cmd + seq![' '] + args;
    let raw = head + ending;
    lemma_trim_end_append_space(head, ending);
    assert forall|i: int| 0 <= i < cmd.len() implies #[trigger] cmd[i] != ' ' by {
        assert(!is_white_space(cmd[i]));
    }
    lemma_trim_of_trimmed(cmd);
    if args.len() > 0 {
        assert(head.last() == args.last());
        assert(trim_end_seq(head) == head);
        let body = cmd + seq![' '] + args;
        assert(command_body(raw) =~= body);
        assert(body =~= cmd + (seq![' '] + args));
        lemma_first_space_prefix(cmd, seq![' '] + args);
        assert((seq![' '] + args)[0] == ' ');
        assert(first_space(body) == cmd.len());
        assert(before_space(body) =~= cmd);
        assert(after_space(body) =~= args);
        lemma_trim_of_trimmed(args);
    } else {
        assert(head =~= seq!['/'] + cmd + seq![' ']);
        assert(head.drop_last() =~= seq!['/'] + cmd);
        assert((seq!['/'] + cmd).last() == cmd.last());
        assert(trim_end_seq(seq!['/'] + cmd) == seq!['/'] + cmd);
        assert(trim_end_seq(head) == seq!['/'] + cmd);
        assert(command_body(raw) =~= cmd);
        lemma_first_space_prefix(cmd, Seq::<char>::empty());
        assert(cmd + Seq::<char>::empty() =~= cmd);
        assert(before_space(cmd) =~= cmd);
        assert(after_space(cmd) =~= Seq::<char>::empty());
        lemma_trim_of_trimmed(Seq::<char>::empty());
    }
}

/// Composing `/msg` arguments: a target word, a space and a non-empty
/// trimmed body plan a private message of that body to that target.
pub proof fn law_msg_plan(target: Seq<char>, body: Seq<char>)
    requires
        is_word(target),
        is_trimmed(body),
        body.len() > 0,
    ensures
        command_plan("msg"@, target + seq![' '] + body) == PlanSpec::SendPrivate(target, body),
{
    let args = target + seq![' '] + body;
    assert forall|i: int| 0 <= i < target.len() implies #[trigger] target[i] != ' ' by {
        assert(!is_white_space(target[i]));
    }
    assert(target + seq![' '] + body =~= target + (seq![' '] + body));
    lemma_first_space_prefix(target, seq![' '] + body);
    assert((seq![' '] + body)[0] == ' ');
    assert(before_space(args) =~= target);
    assert(after_space(args) =~= body);
    lemma_trim_of_trimmed(target);
    lemma_trim_of_trimmed(body);
}

/// A `/msg` without a body, or with nothing at all, is answered with the usage text.
pub proof fn law_msg_usage(target: Seq<char>)
    requires
        forall|i: int| 0 <= i < target.len() ==> #[trigger] target[i] != ' ',
    ensures
        command_plan("msg"@, target) == PlanSpec::Reply(usage_text()),
{
    lemma_first_space_prefix(target, Seq::<char>::empty());
    assert(target + Seq::<char>::empty() =~= target);
    assert(after_space(target) =~= Seq::<char>::empty());
    lemma_trim_of_trimmed(Seq::<char>::empty());
}

} // verus!

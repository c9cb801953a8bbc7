use vstd::prelude::*;
use vstd::string::*;

use crate::mail::{parse_mailbox_spec, Mailbox, MailboxView};
use crate::text::{find_char, index_of_first, starts_with_spec, str_eq, str_starts_with};

verus! {

/// Mathematical model of a classified inbound line.
#[verifier::ext_equal]
pub enum ClientMessageView {
    Helo(Seq<char>),
    Unknown(Seq<char>),
    StartMail(MailboxView),
    AddRecipient(MailboxView),
    BeginData,
    Quit,
}

/// One inbound text line, classified as a typed client command; lines that
/// match no command are kept whole as `Unknown`.
#[derive(Debug, PartialEq, Eq)]
pub enum ClientMessage {
    Helo(String),
    Unknown(String),
    StartMail(Mailbox),
    AddRecipient(Mailbox),
    BeginData,
    Quit,
}

impl View for ClientMessage {
    type V = ClientMessageView;

    open spec fn view(&self) -> ClientMessageView {
        match self {
            ClientMessage::Helo(s) => ClientMessageView::Helo(s@),
            ClientMessage::Unknown(s) => ClientMessageView::Unknown(s@),
            ClientMessage::StartMail(m) => ClientMessageView::StartMail(m@),
            ClientMessage::AddRecipient(m) => ClientMessageView::AddRecipient(m@),
            ClientMessage::BeginData => ClientMessageView::BeginData,
            ClientMessage::Quit => ClientMessageView::Quit,
        }
    }
}

/// The command token: everything before the first space, or the whole line.
pub open spec fn head_token(s: Seq<char>) -> Seq<char> {
    match index_of_first(s, ' ') {
        None => s,
        Some(i) => s.subrange(0, i),
    }
}

/// The remainder: everything after the first space, or empty.
pub open spec fn tail_after_token(s: Seq<char>) -> Seq<char> {
    match index_of_first(s, ' ') {
        None => Seq::empty(),
        Some(i) => s.subrange(i + 1, s.len() as int),
    }
}

/// How one inbound line is classified. The command token is matched
/// case-sensitively; `MAIL` and `RCPT` demand their literal `FROM:` / `TO:`
/// prefix on the remainder and hand the rest to the mailbox parser; anything
/// else degrades to `Unknown` holding the original line.
pub open spec fn parse_command_spec(line: Seq<char>) -> ClientMessageView {
    let cmd = head_token(line);
    let rest = tail_after_token(line);
    if cmd == "HELO"@ {
        ClientMessageView::Helo(rest)
    } else if cmd == "MAIL"@ {
        if starts_with_spec(rest, "FROM:"@) {
            ClientMessageView::StartMail(parse_mailbox_spec(rest.skip("FROM:"@.len() as int)))
        } else {
            ClientMessageView::Unknown(line)
        }
    } else if cmd == "RCPT"@ {
        if starts_with_spec(rest, "TO:"@) {
            ClientMessageView::AddRecipient(parse_mailbox_spec(rest.skip("TO:"@.len() as int)))
        } else {
            ClientMessageView::Unknown(line)
        }
    } else if cmd == "DATA"@ {
        ClientMessageView::BeginData
    } else if cmd == "QUIT"@ {
        ClientMessageView::Quit
    } else {
        ClientMessageView::Unknown(line)
    }
}

impl ClientMessage {
    /// Classifies one inbound line; total, never fails.
    pub fn from(value: String) -> (c: ClientMessage)
        ensures
            c@ == parse_command_spec(value@),
    {
        let s = value.as_str();
        let n = s.unicode_len();
        let (cmd, rest): (String, String) = match find_char(s, ' ') {
            None => (String::from_str(s), String::new()),
            Some(i) => (
                String::from_str(s.substring_char(0, i)),
                String::from_str(s.substring_char(i + 1, n)),
            ),
        };
        proof {
            assert(cmd@ == head_token(value@));
            assert(rest@ =~= tail_after_token(value@));
        }
        if str_eq(cmd.as_str(), "HELO") {
            ClientMessage::Helo(rest)
        } else if str_eq(cmd.as_str(), "MAIL") {
            if str_starts_with(rest.as_str(), "FROM:") {
                proof {
                    reveal_strlit("FROM:");
                }
                let rn = rest.as_str().unicode_len();
                let arg = rest.as_str().substring_char(5, rn);
                proof {
                    assert(arg@ =~= rest@.skip("FROM:"@.len() as int));
                }
                ClientMessage::StartMail(Mailbox::from(String::from_str(arg)))
            } else {
                ClientMessage::Unknown(value)
            }
        } else if str_eq(cmd.as_str(), "RCPT") {
            if str_starts_with(rest.as_str(), "TO:") {
                proof {
                    reveal_strlit("TO:");
                }
                let rn = rest.as_str().unicode_len();
                let arg = rest.as_str().substring_char(3, rn);
                proof {
                    assert(arg@ =~= rest@.skip("TO:"@.len() as int));
                }
                ClientMessage::AddRecipient(Mailbox::from(String::from_str(arg)))
            } else {
                ClientMessage::Unknown(value)
            }
        } else if str_eq(cmd.as_str(), "DATA") {
            ClientMessage::BeginData
        } else if str_eq(cmd.as_str(), "QUIT") {
            ClientMessage::Quit
        } else {
            ClientMessage::Unknown(value)
        }
    }
}

/// Law: classifying a line is deterministic, so parsing the same line twice
/// yields structurally equal command values.
pub proof fn lemma_parse_command_deterministic(a: Seq<char>, b: Seq<char>)
    requires
        a == b,
    ensures
        parse_command_spec(a) == parse_command_spec(b),
{
}

/// Mathematical model of a server response.
#[verifier::ext_equal]
pub enum ServerMessageView {
    ServiceReady,
    Okay(Option<Seq<char>>),
    BeginData,
    CommandNotRecognised,
    ClosingConnection,
}

/// A typed server outcome, one per reply line.
#[derive(Debug, PartialEq, Eq)]
pub enum ServerMessage {
    ServiceReady,
    Okay(Option<String>),
    BeginData,
    CommandNotRecognised,
    ClosingConnection,
}

impl View for ServerMessage {
    type V = ServerMessageView;

    open spec fn view(&self) -> ServerMessageView {
        match self {
            ServerMessage::ServiceReady => ServerMessageView::ServiceReady,
            ServerMessage::Okay(o) => ServerMessageView::Okay(o.deep_view()),
            ServerMessage::BeginData => ServerMessageView::BeginData,
            ServerMessage::CommandNotRecognised => ServerMessageView::CommandNotRecognised,
            ServerMessage::ClosingConnection => ServerMessageView::ClosingConnection,
        }
    }
}

impl DeepView for ServerMessage {
    type V = ServerMessageView;

    open spec fn deep_view(&self) -> ServerMessageView {
        self.view()
    }
}

/// The exact reply line for each server outcome.
pub open spec fn format_response_spec(m: ServerMessageView) -> Seq<char> {
    match m {
        ServerMessageView::ServiceReady => "220 bungus"@,
        ServerMessageView::Okay(o) => match o {
            None => "250 OK"@,
            Some(s) => "250 "@ + s,
        },
        ServerMessageView::BeginData => "354 Start mail input; end with <CRLF>.<CRLF>"@,
        ServerMessageView::CommandNotRecognised => "500 command not recognised"@,
        ServerMessageView::ClosingConnection => "221 closing connection"@,
    }
}

impl ServerMessage {
    /// The reply line to send, without a trailing line terminator.
    pub fn format(&self) -> (r: String)
        ensures
            r@ == format_response_spec(self@),
    {
        match self {
            ServerMessage::ServiceReady => String::from_str("220 bungus"),
            ServerMessage::Okay(o) => match o {
                None => String::from_str("250 OK"),
                Some(s) => String::from_str("250 ").concat(s.as_str()),
            },
            ServerMessage::BeginData => String::from_str(
                "354 Start mail input; end with <CRLF>.<CRLF>",
            ),
            ServerMessage::CommandNotRecognised => String::from_str("500 command not recognised"),
            ServerMessage::ClosingConnection => String::from_str("221 closing connection"),
        }
    }
}

} // verus!

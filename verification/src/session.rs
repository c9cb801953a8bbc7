use vstd::prelude::*;
use vstd::string::*;
use vstd::utf8::encode_utf8;

use crate::mail::{Mailbox, MailboxView, MailTransport, MailTransportView};
use crate::message::{
    parse_command_spec, ClientMessage, ClientMessageView, ServerMessage, ServerMessageView,
};
use crate::text::str_eq;

verus! {

/// Mathematical model of one per-connection session.
#[verifier::ext_equal]
pub struct SessionView {
    pub host: Option<Seq<char>>,
    pub introduced: bool,
    pub transaction: Option<MailTransportView>,
    pub in_data_section: bool,
}

impl SessionView {
    /// A session only collects body lines while a transaction is open.
    pub open spec fn wf(self) -> bool {
        self.in_data_section ==> self.transaction is Some
    }
}

/// Per-connection protocol state: the hostname announced by HELO, whether the
/// greeting went out, the open transaction, and whether body lines are being
/// collected.
#[derive(Debug)]
pub struct Session {
    pub host: Option<String>,
    pub introduced: bool,
    pub transaction: Option<MailTransport>,
    pub in_data_section: bool,
}

impl View for Session {
    type V = SessionView;

    open spec fn view(&self) -> SessionView {
        SessionView {
            host: self.host.deep_view(),
            introduced: self.introduced,
            transaction: self.transaction.deep_view(),
            in_data_section: self.in_data_section,
        }
    }
}

/// Mathematical model of what one step sends outward: at most one reply line,
/// at most one finished transaction for the delivery sink, and whether the
/// transport must be closed.
#[verifier::ext_equal]
pub struct StepResultView {
    pub response: Option<ServerMessageView>,
    pub delivered: Option<MailTransportView>,
    pub close: bool,
}

/// What one step of the session sends outward.
#[derive(Debug)]
pub struct StepResult {
    pub response: Option<ServerMessage>,
    pub delivered: Option<MailTransport>,
    pub close: bool,
}

impl View for StepResult {
    type V = StepResultView;

    open spec fn view(&self) -> StepResultView {
        StepResultView {
            response: self.response.deep_view(),
            delivered: self.delivered.deep_view(),
            close: self.close,
        }
    }
}

/// One step of the session: the state it leaves behind and what it sends out.
#[verifier::ext_equal]
pub struct SessionStep {
    pub state: SessionView,
    pub out: StepResultView,
}

/// The reply text for a HELO greeting.
pub open spec fn greeting_line(host: Seq<char>) -> Seq<char> {
    "haiiiii "@ + host + " :3"@
}

/// A transaction freshly opened for the given sender.
pub open spec fn fresh_transaction(m: MailboxView) -> MailTransportView {
    MailTransportView { from: Some(m), to: Seq::empty(), data: Seq::empty() }
}

/// Appending a recipient to the open transaction, if one is open.
pub open spec fn add_recipient_spec(
    t: Option<MailTransportView>,
    m: MailboxView,
) -> Option<MailTransportView> {
    match t {
        Some(tr) => Some(MailTransportView { to: tr.to.push(m), ..tr }),
        None => None,
    }
}

/// Appending one body line, terminated by CRLF, to the open transaction, if
/// one is open.
pub open spec fn append_body_spec(
    t: Option<MailTransportView>,
    bytes: Seq<u8>,
) -> Option<MailTransportView> {
    match t {
        Some(tr) => Some(MailTransportView { data: tr.data + bytes + seq![13u8, 10u8], ..tr }),
        None => None,
    }
}

/// A step that changes nothing and sends nothing.
pub open spec fn silent_step(s: SessionView) -> SessionStep {
    SessionStep {
        state: s,
        out: StepResultView { response: None, delivered: None, close: false },
    }
}

/// One raw line taken as body content: a line of exactly `.` ends the data
/// section and hands the finished transaction to the delivery sink, with an
/// OK reply; any other line is appended to the body and draws no reply.
pub open spec fn data_line_spec(s: SessionView, line: Seq<char>) -> SessionStep {
    if line == "."@ {
        SessionStep {
            state: SessionView { in_data_section: false, transaction: None, ..s },
            out: StepResultView {
                response: Some(ServerMessageView::Okay(None)),
                delivered: s.transaction,
                close: false,
            },
        }
    } else {
        SessionStep {
            state: SessionView {
                transaction: append_body_spec(s.transaction, encode_utf8(line)),
                ..s
            },
            out: StepResultView { response: None, delivered: None, close: false },
        }
    }
}

/// How the session interprets one parsed command. HELO always answers with a
/// greeting; MAIL, RCPT and DATA are silently dropped until a HELO has been
/// seen; DATA also demands an open transaction, so that body lines always
/// have somewhere to go; QUIT answers and closes in every state; an unknown
/// line is body content inside the data section and is otherwise refused.
pub open spec fn step_spec(s: SessionView, c: ClientMessageView) -> SessionStep {
    match c {
        ClientMessageView::Helo(h) => SessionStep {
            state: SessionView { host: Some(h), ..s },
            out: StepResultView {
                response: Some(ServerMessageView::Okay(Some(greeting_line(h)))),
                delivered: None,
                close: false,
            },
        },
        ClientMessageView::StartMail(m) => if s.host is Some {
            SessionStep {
                state: SessionView { transaction: Some(fresh_transaction(m)), ..s },
                out: StepResultView {
                    response: Some(ServerMessageView::Okay(None)),
                    delivered: None,
                    close: false,
                },
            }
        } else {
            silent_step(s)
        },
        ClientMessageView::AddRecipient(m) => if s.host is Some {
            SessionStep {
                state: SessionView { transaction: add_recipient_spec(s.transaction, m), ..s },
                out: StepResultView {
                    response: Some(ServerMessageView::Okay(None)),
                    delivered: None,
                    close: false,
                },
            }
        } else {
            silent_step(s)
        },
        ClientMessageView::BeginData => if s.host is Some && s.transaction is Some {
            SessionStep {
                state: SessionView { in_data_section: true, ..s },
                out: StepResultView {
                    response: Some(ServerMessageView::BeginData),
                    delivered: None,
                    close: false,
                },
            }
        } else {
            silent_step(s)
        },
        ClientMessageView::Unknown(line) => if s.in_data_section {
            data_line_spec(s, line)
        } else {
            SessionStep {
                state: s,
                out: StepResultView {
                    response: Some(ServerMessageView::CommandNotRecognised),
                    delivered: None,
                    close: false,
                },
            }
        },
        ClientMessageView::Quit => SessionStep {
            state: s,
            out: StepResultView {
                response: Some(ServerMessageView::ClosingConnection),
                delivered: None,
                close: true,
            },
        },
    }
}

/// How the session consumes one raw inbound line: body content while the data
/// section is open, a parsed command otherwise.
pub open spec fn process_line_spec(s: SessionView, line: Seq<char>) -> SessionStep {
    if s.in_data_section {
        data_line_spec(s, line)
    } else {
        step_spec(s, parse_command_spec(line))
    }
}

impl Session {
    /// A fresh session for one connection, not yet introduced.
    pub fn new() -> (s: Session)
        ensures
            s@ == (SessionView {
                host: None,
                introduced: false,
                transaction: None,
                in_data_section: false,
            }),
    {
        Session { host: None, introduced: false, transaction: None, in_data_section: false }
    }

    /// Emits the service-ready greeting; it goes out exactly once, on the
    /// first call, before any command is processed.
    pub fn greet(&mut self) -> (r: Option<ServerMessage>)
        ensures
            old(self).introduced ==> *final(self) == *old(self) && r is None,
            !old(self).introduced ==> final(self)@ == (SessionView {
                introduced: true,
                ..old(self)@
            }) && r == Some(ServerMessage::ServiceReady),
    {
        if self.introduced {
            None
        } else {
            self.introduced = true;
            proof {
                assert(final(self)@ =~~= (SessionView { introduced: true, ..old(self)@ }));
            }
            Some(ServerMessage::ServiceReady)
        }
    }

    /// Records the hostname the client announced with HELO.
    pub fn hostname(&mut self, hostname: String)
        ensures
            final(self)@ == (SessionView { host: Some(hostname@), ..old(self)@ }),
    {
        self.host = Some(hostname);
        proof {
            assert(final(self)@ =~~= (SessionView { host: Some(hostname@), ..old(self)@ }));
        }
    }

    /// Opens a fresh transaction whose sender is `from`, replacing any
    /// transaction already open.
    pub fn start_mail(&mut self, from: Mailbox)
        ensures
            final(self)@ == (SessionView {
                transaction: Some(fresh_transaction(from@)),
                ..old(self)@
            }),
    {
        let mut transaction = MailTransport::new();
        transaction.from(from);
        self.transaction = Some(transaction);
        proof {
            assert(final(self)@ =~~= (SessionView {
                transaction: Some(fresh_transaction(from@)),
                ..old(self)@
            }));
        }
    }

    /// Appends a recipient to the open transaction; without one this is a
    /// silent no-op, since there is nothing to append to.
    pub fn add_recipient(&mut self, to: Mailbox)
        ensures
            final(self)@ == (SessionView {
                transaction: add_recipient_spec(old(self)@.transaction, to@),
                ..old(self)@
            }),
    {
        let taken = self.transaction.take();
        match taken {
            Some(mut transaction) => {
                transaction.to(to);
                self.transaction = Some(transaction);
            },
            None => {},
        }
        proof {
            assert(final(self)@ =~~= (SessionView {
                transaction: add_recipient_spec(old(self)@.transaction, to@),
                ..old(self)@
            }));
        }
    }

    /// Appends one body line, terminated by CRLF, to the open transaction;
    /// without one this is a silent no-op.
    pub fn append_data(&mut self, data: &[u8])
        ensures
            final(self)@ == (SessionView {
                transaction: append_body_spec(old(self)@.transaction, data@),
                ..old(self)@
            }),
    {
        let taken = self.transaction.take();
        match taken {
            Some(mut transaction) => {
                transaction.data(data);
                transaction.data.push(13u8);
                transaction.data.push(10u8);
                proof {
                    assert(transaction@.data =~= old(self)@.transaction->Some_0.data + data@
                        + seq![13u8, 10u8]);
                }
                self.transaction = Some(transaction);
            },
            None => {},
        }
        proof {
            assert(final(self)@ =~~= (SessionView {
                transaction: append_body_spec(old(self)@.transaction, data@),
                ..old(self)@
            }));
        }
    }

    /// Treats one raw line as body content: a lone dot closes the data
    /// section and hands the transaction over; anything else is appended.
    pub fn data_line(&mut self, line: String) -> (r: StepResult)
        requires
            old(self)@.wf(),
        ensures
            final(self)@ == data_line_spec(old(self)@, line@).state,
            r@ == data_line_spec(old(self)@, line@).out,
            final(self)@.wf(),
    {
        if str_eq(line.as_str(), ".") {
            self.in_data_section = false;
            let delivered = self.transaction.take();
            let r = StepResult {
                response: Some(ServerMessage::Okay(None)),
                delivered,
                close: false,
            };
            proof {
                assert(final(self)@ =~~= data_line_spec(old(self)@, line@).state);
                assert(r@ =~~= data_line_spec(old(self)@, line@).out);
            }
            r
        } else {
            let bytes = line.as_str().as_bytes();
            self.append_data(bytes);
            let r = StepResult { response: None, delivered: None, close: false };
            proof {
                assert(final(self)@ =~~= data_line_spec(old(self)@, line@).state);
                assert(r@ =~~= data_line_spec(old(self)@, line@).out);
            }
            r
        }
    }

    /// Interprets one parsed command in the current session state.
    pub fn handle_message(&mut self, message: ClientMessage) -> (r: StepResult)
        requires
            old(self)@.wf(),
        ensures
            final(self)@ == step_spec(old(self)@, message@).state,
            r@ == step_spec(old(self)@, message@).out,
            final(self)@.wf(),
    {
        match message {
            ClientMessage::Helo(hostname) => {
                let greeting = String::from_str("haiiiii ").concat(hostname.as_str()).concat(
                    " :3",
                );
                proof {
                    assert(greeting@ =~= greeting_line(hostname@));
                }
                self.hostname(hostname);
                let r = StepResult {
                    response: Some(ServerMessage::Okay(Some(greeting))),
                    delivered: None,
                    close: false,
                };
                proof {
                    assert(r@ =~~= step_spec(old(self)@, message@).out);
                }
                r
            },
            ClientMessage::StartMail(from) => {
                if self.host.is_some() {
                    self.start_mail(from);
                    StepResult {
                        response: Some(ServerMessage::Okay(None)),
                        delivered: None,
                        close: false,
                    }
                } else {
                    StepResult { response: None, delivered: None, close: false }
                }
            },
            ClientMessage::AddRecipient(to) => {
                if self.host.is_some() {
                    self.add_recipient(to);
                    StepResult {
                        response: Some(ServerMessage::Okay(None)),
                        delivered: None,
                        close: false,
                    }
                } else {
                    StepResult { response: None, delivered: None, close: false }
                }
            },
            ClientMessage::BeginData => {
                if self.host.is_some() && self.transaction.is_some() {
                    self.in_data_section = true;
                    proof {
                        assert(final(self)@ =~~= step_spec(old(self)@, message@).state);
                    }
                    StepResult {
                        response: Some(ServerMessage::BeginData),
                        delivered: None,
                        close: false,
                    }
                } else {
                    StepResult { response: None, delivered: None, close: false }
                }
            },
            ClientMessage::Unknown(line) => {
                if self.in_data_section {
                    self.data_line(line)
                } else {
                    StepResult {
                        response: Some(ServerMessage::CommandNotRecognised),
                        delivered: None,
                        close: false,
                    }
                }
            },
            ClientMessage::Quit => StepResult {
                response: Some(ServerMessage::ClosingConnection),
                delivered: None,
                close: true,
            },
        }
    }

    /// Drives one raw inbound line through the session: body content while
    /// the data section is open, a parsed command otherwise.
    pub fn process_line(&mut self, line: String) -> (r: StepResult)
        requires
            old(self)@.wf(),
        ensures
            final(self)@ == process_line_spec(old(self)@, line@).state,
            r@ == process_line_spec(old(self)@, line@).out,
            final(self)@.wf(),
    {
        if self.in_data_section {
            self.data_line(line)
        } else {
            let message = ClientMessage::from(line);
            self.handle_message(message)
        }
    }
}

/// Law: a well-formed session stays well formed across every step.
pub proof fn lemma_step_preserves_wf(s: SessionView, c: ClientMessageView)
    requires
        s.wf(),
    ensures
        step_spec(s, c).state.wf(),
{
}

/// Law: before a HELO has been seen, the mail commands are silently dropped:
/// no reply goes out, the state is untouched, nothing is delivered and the
/// connection stays open.
pub proof fn lemma_silent_before_helo(s: SessionView, c: ClientMessageView)
    requires
        s.host is None,
        c is StartMail || c is AddRecipient || c is BeginData,
    ensures
        step_spec(s, c).state == s,
        step_spec(s, c).out.response is None,
        step_spec(s, c).out.delivered is None,
        !step_spec(s, c).out.close,
{
}

/// Law: QUIT in any state answers with the closing response and closes the
/// transport; the state is left untouched and nothing is delivered.
pub proof fn lemma_quit_always_closes(s: SessionView)
    ensures
        step_spec(s, ClientMessageView::Quit).out.response == Some(
            ServerMessageView::ClosingConnection,
        ),
        step_spec(s, ClientMessageView::Quit).out.close,
        step_spec(s, ClientMessageView::Quit).state == s,
        step_spec(s, ClientMessageView::Quit).out.delivered is None,
{
}

} // verus!

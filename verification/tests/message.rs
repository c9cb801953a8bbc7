use smtp_core::mail::Mailbox;
use smtp_core::message::{ClientMessage, ServerMessage};

#[test]
fn parse_helo() {
    let c = ClientMessage::from(String::from("HELO foo.com"));
    assert_eq!(c, ClientMessage::Helo(String::from("foo.com")));
}

#[test]
fn parse_helo_is_case_sensitive() {
    let c = ClientMessage::from(String::from("helo foo.com"));
    assert_eq!(c, ClientMessage::Unknown(String::from("helo foo.com")));
}

#[test]
fn parse_mail_from() {
    let c = ClientMessage::from(String::from("MAIL FROM:<a@b>"));
    assert_eq!(
        c,
        ClientMessage::StartMail(Mailbox { email: String::from("a@b"), display_name: None })
    );
}

#[test]
fn parse_mail_without_colon_prefix_is_unknown() {
    let c = ClientMessage::from(String::from("MAIL FROM"));
    assert_eq!(c, ClientMessage::Unknown(String::from("MAIL FROM")));
}

#[test]
fn parse_rcpt_to() {
    let c = ClientMessage::from(String::from("RCPT TO:<c@d>"));
    assert_eq!(
        c,
        ClientMessage::AddRecipient(Mailbox { email: String::from("c@d"), display_name: None })
    );
}

#[test]
fn parse_rcpt_without_colon_prefix_is_unknown() {
    let c = ClientMessage::from(String::from("RCPT c@d"));
    assert_eq!(c, ClientMessage::Unknown(String::from("RCPT c@d")));
}

#[test]
fn parse_data_ignores_remainder() {
    assert_eq!(ClientMessage::from(String::from("DATA")), ClientMessage::BeginData);
    assert_eq!(ClientMessage::from(String::from("DATA now")), ClientMessage::BeginData);
}

#[test]
fn parse_quit() {
    assert_eq!(ClientMessage::from(String::from("QUIT")), ClientMessage::Quit);
}

#[test]
fn parse_unrecognised_line() {
    let c = ClientMessage::from(String::from("NOOP whatever"));
    assert_eq!(c, ClientMessage::Unknown(String::from("NOOP whatever")));
}

#[test]
fn parse_empty_line() {
    let c = ClientMessage::from(String::from(""));
    assert_eq!(c, ClientMessage::Unknown(String::from("")));
}

#[test]
fn parse_same_line_twice_is_equal() {
    let a = ClientMessage::from(String::from("MAIL FROM:<a@b>"));
    let b = ClientMessage::from(String::from("MAIL FROM:<a@b>"));
    assert_eq!(a, b);
}

#[test]
fn response_lines_are_exact() {
    assert_eq!(ServerMessage::ServiceReady.format(), "220 bungus");
    assert_eq!(ServerMessage::Okay(None).format(), "250 OK");
    assert_eq!(ServerMessage::Okay(Some(String::from("hi"))).format(), "250 hi");
    assert_eq!(
        ServerMessage::BeginData.format(),
        "354 Start mail input; end with <CRLF>.<CRLF>"
    );
    assert_eq!(ServerMessage::CommandNotRecognised.format(), "500 command not recognised");
    assert_eq!(ServerMessage::ClosingConnection.format(), "221 closing connection");
}

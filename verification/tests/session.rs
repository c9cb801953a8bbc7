use smtp_core::message::ServerMessage;
use smtp_core::session::Session;

#[test]
fn session_end_to_end() {
    let mut s = Session::new();
    let greeting = s.greet().expect("greeting goes out on connect");
    assert_eq!(greeting.format(), "220 bungus");

    let r = s.process_line(String::from("HELO x"));
    assert_eq!(r.response.unwrap().format(), "250 haiiiii x :3");

    let r = s.process_line(String::from("MAIL FROM:<s@s.com>"));
    assert_eq!(r.response.unwrap().format(), "250 OK");

    let r = s.process_line(String::from("RCPT TO:<r@r.com>"));
    assert_eq!(r.response.unwrap().format(), "250 OK");

    let r = s.process_line(String::from("DATA"));
    assert_eq!(
        r.response.unwrap().format(),
        "354 Start mail input; end with <CRLF>.<CRLF>"
    );

    let r = s.process_line(String::from("hello body"));
    assert!(r.response.is_none());
    assert!(r.delivered.is_none());

    let r = s.process_line(String::from("."));
    assert_eq!(r.response.unwrap().format(), "250 OK");
    let delivered = r.delivered.expect("the finished transaction reaches the sink");
    assert_eq!(delivered.from.as_ref().unwrap().email, "s@s.com");
    assert_eq!(delivered.to[0].email, "r@r.com");
    assert_eq!(delivered.data, b"hello body\r\n".to_vec());
    assert!(s.transaction.is_none());
}

#[test]
fn greeting_goes_out_exactly_once() {
    let mut s = Session::new();
    assert_eq!(s.greet(), Some(ServerMessage::ServiceReady));
    assert_eq!(s.greet(), None);
    assert!(s.introduced);
}

#[test]
fn mail_before_helo_is_silently_dropped() {
    let mut s = Session::new();
    let _ = s.greet();
    let r = s.process_line(String::from("MAIL FROM:<x@y>"));
    assert!(r.response.is_none());
    assert!(r.delivered.is_none());
    assert!(!r.close);
    assert!(s.transaction.is_none());
    assert!(s.host.is_none());
}

#[test]
fn rcpt_and_data_before_helo_are_silently_dropped() {
    let mut s = Session::new();
    let _ = s.greet();
    let r = s.process_line(String::from("RCPT TO:<x@y>"));
    assert!(r.response.is_none());
    let r = s.process_line(String::from("DATA"));
    assert!(r.response.is_none());
    assert!(!s.in_data_section);
}

#[test]
fn quit_closes_in_any_state() {
    let mut s = Session::new();
    let _ = s.greet();
    let r = s.process_line(String::from("QUIT"));
    assert_eq!(r.response.unwrap().format(), "221 closing connection");
    assert!(r.close);

    let mut s2 = Session::new();
    let _ = s2.greet();
    let _ = s2.process_line(String::from("HELO x"));
    let _ = s2.process_line(String::from("MAIL FROM:<a@b>"));
    let r = s2.process_line(String::from("QUIT"));
    assert_eq!(r.response.unwrap().format(), "221 closing connection");
    assert!(r.close);
}

#[test]
fn unknown_command_outside_data_section_is_refused() {
    let mut s = Session::new();
    let _ = s.greet();
    let r = s.process_line(String::from("EHLO x"));
    assert_eq!(r.response.unwrap().format(), "500 command not recognised");
    assert!(!r.close);
}

#[test]
fn rcpt_without_open_transaction_still_answers_ok() {
    let mut s = Session::new();
    let _ = s.greet();
    let _ = s.process_line(String::from("HELO x"));
    let r = s.process_line(String::from("RCPT TO:<a@b>"));
    assert_eq!(r.response.unwrap().format(), "250 OK");
    assert!(s.transaction.is_none());
}

#[test]
fn data_without_open_transaction_is_silently_dropped() {
    let mut s = Session::new();
    let _ = s.greet();
    let _ = s.process_line(String::from("HELO x"));
    let r = s.process_line(String::from("DATA"));
    assert!(r.response.is_none());
    assert!(!s.in_data_section);
}

#[test]
fn duplicate_recipients_are_kept() {
    let mut s = Session::new();
    let _ = s.greet();
    let _ = s.process_line(String::from("HELO x"));
    let _ = s.process_line(String::from("MAIL FROM:<a@b>"));
    let _ = s.process_line(String::from("RCPT TO:<c@d>"));
    let _ = s.process_line(String::from("RCPT TO:<c@d>"));
    let t = s.transaction.as_ref().unwrap();
    assert_eq!(t.to.len(), 2);
    assert_eq!(t.to[0].email, "c@d");
    assert_eq!(t.to[1].email, "c@d");
}

#[test]
fn body_lines_accumulate_with_crlf() {
    let mut s = Session::new();
    let _ = s.greet();
    let _ = s.process_line(String::from("HELO x"));
    let _ = s.process_line(String::from("MAIL FROM:<a@b>"));
    let _ = s.process_line(String::from("DATA"));
    assert!(s.in_data_section);
    let _ = s.process_line(String::from("line one"));
    let _ = s.process_line(String::from("QUIT is body content here"));
    let r = s.process_line(String::from("."));
    let delivered = r.delivered.unwrap();
    assert_eq!(
        delivered.data,
        b"line one\r\nQUIT is body content here\r\n".to_vec()
    );
    assert!(!s.in_data_section);
}

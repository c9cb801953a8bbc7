use smtp_core::mail::Mailbox;

#[test]
fn mailbox_parse_email() {
    let expected = Mailbox {
        email: String::from("foobar@example.com"),
        display_name: None,
    };
    let actual = Mailbox::from(String::from("<foobar@example.com>"));
    assert_eq!(expected, actual);
}

#[test]
fn mailbox_parse_display_name() {
    let expected = Mailbox {
        email: String::from("foobar@example.com"),
        display_name: Some(String::from("sir foo of bar")),
    };
    let actual = Mailbox::from(String::from("sir foo of bar <foobar@example.com>"));
    assert_eq!(expected, actual);
}

#[test]
fn mailbox_parse_without_brackets_takes_trimmed_whole() {
    let actual = Mailbox::from(String::from("  a@b  "));
    assert_eq!(actual.email, "a@b");
    assert_eq!(actual.display_name, None);
}

#[test]
fn mailbox_parse_empty_input() {
    let actual = Mailbox::from(String::from(""));
    assert_eq!(actual.email, "");
    assert_eq!(actual.display_name, None);
}

#[test]
fn mailbox_parse_missing_closing_bracket() {
    let actual = Mailbox::from(String::from("Name <a@b"));
    assert_eq!(actual.email, "a@b");
    assert_eq!(actual.display_name, Some(String::from("Name")));
}

#[test]
fn mailbox_parse_extra_spaces_before_bracket() {
    let actual = Mailbox::from(String::from("Name   <a@b>"));
    assert_eq!(actual.email, "a@b");
    assert_eq!(actual.display_name, Some(String::from("Name")));
}

#[test]
fn mailbox_format_named() {
    let m = Mailbox::from(String::from("sir foo of bar <foobar@example.com>"));
    assert_eq!(m.format(), "sir foo of bar <foobar@example.com>");
}

#[test]
fn mailbox_format_round_trip_keeps_email() {
    let m = Mailbox::from(String::from("<a@b>"));
    let rendered = m.format();
    assert!(rendered.contains(&format!("<{}>", m.email)));
    let again = Mailbox::from(rendered);
    assert_eq!(again.email, "a@b");
    assert_eq!(again.display_name, None);
}

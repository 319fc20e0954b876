use mail_reader::message::OwnedMessage;

const HTML_MAIL: &[u8] = b"From: Ann <ann@example.com>\r\nSender: Bob <bob@example.com>\r\nSubject: Hello\r\nDate: Thu, 01 Jan 1970 00:01:40 +0000\r\nMIME-Version: 1.0\r\nContent-Type: text/html; charset=utf-8\r\n\r\n<p>Hi</p>";

#[test]
fn parse_reads_the_fields_of_a_message() {
    let msg = OwnedMessage::parse(HTML_MAIL.to_vec()).expect("a message");
    assert_eq!(msg.raw().as_slice(), HTML_MAIL);
    assert_eq!(msg.subject().map(|s| s.as_str()), Some("Hello"));
    assert_eq!(msg.sender().map(|s| s.as_str()), Some("bob@example.com"));
    assert_eq!(msg.date(), Some(100));
    assert_eq!(msg.body_html().map(|s| s.as_str()), Some("<p>Hi</p>"));
}

#[test]
fn parse_applies_the_zone_of_the_date() {
    let raw = b"Subject: Zone\r\nDate: Thu, 01 Jan 1970 01:00:00 +0100\r\n\r\nbody".to_vec();
    let msg = OwnedMessage::parse(raw).expect("a message");
    assert_eq!(msg.date(), Some(0));
    let raw = b"Subject: Zone\r\nDate: Wed, 31 Dec 1969 23:00:00 -0100\r\n\r\nbody".to_vec();
    let msg = OwnedMessage::parse(raw).expect("a message");
    assert_eq!(msg.date(), Some(0));
}

#[test]
fn parse_leaves_out_what_the_message_lacks() {
    let msg = OwnedMessage::parse(b"From: ann@example.com\r\n\r\n".to_vec()).expect("a message");
    assert_eq!(msg.subject(), None);
    assert_eq!(msg.sender(), None);
    assert_eq!(msg.date(), None);
}

#[test]
fn parse_refuses_bytes_without_a_header() {
    assert!(OwnedMessage::parse(Vec::new()).is_none());
}

#[test]
fn parse_twice_reads_the_same() {
    let first = OwnedMessage::parse(HTML_MAIL.to_vec()).expect("a message");
    let second = OwnedMessage::parse(HTML_MAIL.to_vec()).expect("a message");
    assert_eq!(first.subject(), second.subject());
    assert_eq!(first.sender(), second.sender());
    assert_eq!(first.date(), second.date());
    assert_eq!(first.body_html(), second.body_html());
    assert_eq!(first.raw(), second.raw());
}

#[test]
fn from_parts_keeps_what_it_is_given() {
    let msg = OwnedMessage::from_parts(
        vec![1, 2, 3],
        Some("s".to_string()),
        Some("a@b.c".to_string()),
        Some(-5),
        Some("<i>x</i>".to_string()),
    );
    assert_eq!(msg.raw(), &vec![1, 2, 3]);
    assert_eq!(msg.subject().map(|s| s.as_str()), Some("s"));
    assert_eq!(msg.sender().map(|s| s.as_str()), Some("a@b.c"));
    assert_eq!(msg.date(), Some(-5));
    assert_eq!(msg.body_html().map(|s| s.as_str()), Some("<i>x</i>"));
    let bare = OwnedMessage::from_parts(Vec::new(), None, None, None, None);
    assert!(bare.raw().is_empty());
    assert_eq!(bare.subject(), None);
    assert_eq!(bare.sender(), None);
    assert_eq!(bare.date(), None);
    assert_eq!(bare.body_html(), None);
}

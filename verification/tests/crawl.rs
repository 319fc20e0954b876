use mail_reader::crawl::{keep, take_in};
use mail_reader::filters::{Filters, Subject};
use mail_reader::message::OwnedMessage;
use mail_reader::MailError;

fn message(subject: &str) -> OwnedMessage {
    OwnedMessage::from_parts(Vec::new(), Some(subject.to_string()), None, None, None)
}

#[test]
fn keep_adds_an_accepted_message_at_the_end() {
    let mut found = vec![message("first")];
    let outcome = keep(Some(message("second")), &Filters::empty(), &mut found);
    assert!(outcome.is_ok());
    let subjects: Vec<&str> = found.iter().map(|m| m.subject().unwrap().as_str()).collect();
    assert_eq!(subjects, vec!["first", "second"]);
}

#[test]
fn keep_passes_over_a_message_that_is_not_accepted() {
    let mut found = vec![message("first")];
    let outcome = keep(Some(message("second")), &Subject::new("other".to_string()), &mut found);
    assert!(outcome.is_ok());
    assert_eq!(found.len(), 1);
    assert_eq!(found[0].subject().unwrap(), "first");
}

#[test]
fn keep_fails_where_nothing_was_parsed() {
    let mut found = vec![message("first")];
    let outcome = keep(None, &Filters::empty(), &mut found);
    assert!(matches!(outcome, Err(MailError::MessageParseFailed)));
    assert_eq!(found.len(), 1);
}

#[test]
fn take_in_parses_before_it_keeps() {
    let mut found = Vec::new();
    let raw = b"Subject: wanted\r\n\r\nbody".to_vec();
    assert!(take_in(raw.clone(), &Subject::new("wanted".to_string()), &mut found).is_ok());
    assert!(take_in(raw.clone(), &Subject::new("other".to_string()), &mut found).is_ok());
    assert_eq!(found.len(), 1);
    assert_eq!(found[0].raw(), &raw);
    let outcome = take_in(Vec::new(), &Filters::empty(), &mut found);
    assert!(matches!(outcome, Err(MailError::MessageParseFailed)));
    assert_eq!(found.len(), 1);
}

use mail_reader::filters::{Filters, Subject};
use mail_reader::message::OwnedMessage;
use mail_reader::pop3_protocol::{Pop3, Pop3Connector, Pop3Credentials, Pop3Fetch, Pop3Step};
use mail_reader::server_map::ProtocolEndpoint;
use mail_reader::{AuthorizationMechanism, MailError, Mailbox};

fn mail(subject: &str) -> Vec<u8> {
    format!("Subject: {subject}\r\nFrom: ann@example.com\r\n\r\nbody of {subject}").into_bytes()
}

fn subjects(found: &[OwnedMessage]) -> Vec<String> {
    found.iter().map(|m| m.subject().cloned().unwrap_or_default()).collect()
}

fn mailbox(auth: AuthorizationMechanism) -> Mailbox {
    Mailbox { email: "ann@example.com".to_string(), auth }
}

#[test]
fn an_empty_mailbox_is_fetched_without_retrieving() {
    match Pop3Fetch::begin(0) {
        Pop3Step::Finished(found) => assert!(found.is_empty()),
        Pop3Step::Retrieve(_) => panic!("nothing to retrieve"),
    }
}

#[test]
fn a_fetch_asks_for_every_message_in_order() {
    let filter = Filters::empty();
    let mut step = Pop3Fetch::begin(3);
    let mut asked = Vec::new();
    let found = loop {
        match step {
            Pop3Step::Retrieve(fetch) => {
                let number = fetch.message_number();
                asked.push(number);
                step = fetch.receive(mail(&format!("m{number}")), &filter).unwrap();
            }
            Pop3Step::Finished(found) => break found,
        }
    };
    assert_eq!(asked, vec![1, 2, 3]);
    assert_eq!(subjects(&found), vec!["m1".to_string(), "m2".to_string(), "m3".to_string()]);
}

#[test]
fn a_fetch_of_one_message_ends_after_it() {
    let Pop3Step::Retrieve(fetch) = Pop3Fetch::begin(1) else { panic!("one to retrieve") };
    assert_eq!(fetch.message_number(), 1);
    match fetch.receive(mail("only"), &Filters::empty()).unwrap() {
        Pop3Step::Finished(found) => assert_eq!(subjects(&found), vec!["only".to_string()]),
        Pop3Step::Retrieve(_) => panic!("nothing left to retrieve"),
    }
}

#[test]
fn a_fetch_keeps_only_what_the_filter_accepts() {
    let filter = Subject::new("keep".to_string());
    let mails = ["keep", "drop", "keep", "drop"];
    let mut step = Pop3Fetch::begin(mails.len());
    let found = loop {
        match step {
            Pop3Step::Retrieve(fetch) => {
                let raw = mail(mails[fetch.message_number() - 1]);
                step = fetch.receive(raw, &filter).unwrap();
            }
            Pop3Step::Finished(found) => break found,
        }
    };
    assert_eq!(subjects(&found), vec!["keep".to_string(), "keep".to_string()]);
}

#[test]
fn a_fetch_stops_at_bytes_that_do_not_parse() {
    let Pop3Step::Retrieve(fetch) = Pop3Fetch::begin(5) else { panic!("five to retrieve") };
    let Pop3Step::Retrieve(fetch) = fetch.receive(mail("m1"), &Filters::empty()).unwrap() else {
        panic!("four to retrieve")
    };
    assert_eq!(fetch.message_number(), 2);
    let outcome = fetch.receive(Vec::new(), &Filters::empty());
    assert!(matches!(outcome, Err(MailError::MessageParseFailed)));
}

#[test]
fn a_session_starts_fetches_as_the_fetch_itself() {
    let session = Pop3::new(mailbox(AuthorizationMechanism::Password { password: "p".to_string() }));
    assert!(matches!(session.begin_fetch(0), Pop3Step::Finished(found) if found.is_empty()));
    match session.begin_fetch(2) {
        Pop3Step::Retrieve(fetch) => assert_eq!(fetch.message_number(), 1),
        Pop3Step::Finished(_) => panic!("two to retrieve"),
    }
}

#[test]
fn a_suspended_session_gives_back_its_credentials() {
    let session = Pop3::new(mailbox(AuthorizationMechanism::OAuth2 { token: "tok".to_string() }));
    let back = session.idlize().done();
    assert_eq!(back.email, "ann@example.com");
    assert!(matches!(back.auth, AuthorizationMechanism::OAuth2 { token } if token == "tok"));
}

#[test]
fn pop3_login_follows_the_authorization_of_the_mailbox() {
    let endpoint = mail_reader::server_map::Pop3(ProtocolEndpoint {
        domain: "pop.example.com".to_string(),
        port: 995,
    });
    let login = Pop3Connector::prepare(
        &mailbox(AuthorizationMechanism::Password { password: "hunter2".to_string() }),
        &endpoint,
    );
    assert_eq!(login.domain, "pop.example.com");
    assert_eq!(login.port, 995);
    match login.credentials {
        Pop3Credentials::Password { user, password } => {
            assert_eq!(user, "ann@example.com");
            assert_eq!(password, "hunter2");
        }
        Pop3Credentials::OAuth2 { .. } => panic!("a password was given"),
    }
    let login = Pop3Connector::prepare(
        &mailbox(AuthorizationMechanism::OAuth2 { token: "tok".to_string() }),
        &endpoint,
    );
    match login.credentials {
        Pop3Credentials::OAuth2 { user, token } => {
            assert_eq!(user, "ann@example.com");
            assert_eq!(token, "tok");
        }
        Pop3Credentials::Password { .. } => panic!("a token was given"),
    }
}

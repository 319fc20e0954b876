use mail_reader::MailError;

#[test]
fn errors_have_their_texts() {
    assert_eq!(
        MailError::MailboxInvalidDomain { login: "ann".to_string() }.message(),
        "this mailbox is invalid: can't distinguish domain part"
    );
    assert_eq!(
        MailError::ServerNotFound { domain: "example.com".to_string() }.message(),
        "couldn't find server entry for this mailbox: example.com"
    );
    assert_eq!(MailError::MessageParseFailed.message(), "couldn't parse message");
    assert_eq!(
        MailError::Imap(async_imap::error::Error::ConnectionLost).message(),
        "Imap-specific error"
    );
    assert_eq!(
        MailError::Pop(async_pop2::error::Error::new(
            async_pop2::error::ErrorKind::NotConnected,
            "not connected"
        ))
        .message(),
        "pop-specific erro"
    );
    assert_eq!(
        MailError::Proxy(proxied::ConnectError::WrongProtocol).message(),
        "failed connection to proxy"
    );
    assert_eq!(MailError::ResolveDns.message(), "failed to resolve dns of email server");
    assert_eq!(
        MailError::Socket(std::io::Error::new(std::io::ErrorKind::Other, "closed")).message(),
        "socket failed"
    );
}

#[test]
fn outside_errors_keep_their_protocol() {
    assert!(matches!(
        MailError::from(async_imap::error::Error::ConnectionLost),
        MailError::Imap(async_imap::error::Error::ConnectionLost)
    ));
    assert!(matches!(
        MailError::from(async_pop2::error::Error::new(
            async_pop2::error::ErrorKind::NotConnected,
            "not connected"
        )),
        MailError::Pop(_)
    ));
    assert!(matches!(
        MailError::from(proxied::ConnectError::WrongProtocol),
        MailError::Proxy(proxied::ConnectError::WrongProtocol)
    ));
    assert!(matches!(
        MailError::from(std::io::Error::new(std::io::ErrorKind::Other, "closed")),
        MailError::Socket(_)
    ));
}

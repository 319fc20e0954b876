//! What can go wrong between a mailbox and its messages.

use vstd::prelude::*;
use vstd::std_specs::convert::FromSpecImpl;
use vstd::string::StringExecFns;

verus! {

/// The error type of `async_imap`. Opaque: it is carried, never inspected.
#[verifier::external_type_specification]
#[verifier::external_body]
pub struct ExImapError(async_imap::error::Error);

/// The error type of `async_pop2`. Opaque: it is carried, never inspected.
#[verifier::external_type_specification]
#[verifier::external_body]
pub struct ExPopError(async_pop2::error::Error);

/// The error of a proxy tunnel, from `proxied`. Opaque.
#[verifier::external_type_specification]
#[verifier::external_body]
pub struct ExProxyError(proxied::ConnectError);

/// The I/O error of the standard library. Opaque.
#[verifier::external_type_specification]
#[verifier::external_body]
pub struct ExIoError(std::io::Error);

/// An error of this library.
#[derive(Debug)]
pub enum MailError {
    /// The login has no `@`, so no domain part.
    MailboxInvalidDomain { login: String },
    /// The directory has no entry for the domain of the mailbox.
    ServerNotFound { domain: String },
    /// The bytes of a fetched message do not parse.
    MessageParseFailed,
    /// An IMAP command failed.
    Imap(async_imap::error::Error),
    /// A POP3 command failed.
    Pop(async_pop2::error::Error),
    /// The proxy did not open the tunnel.
    Proxy(proxied::ConnectError),
    /// The name of the server resolved to no address.
    ResolveDns,
    /// The socket or the TLS handshake failed.
    Socket(std::io::Error),
}

impl MailError {
    /// The text of the error, as shown to a user.
    pub open spec fn text(&self) -> Seq<char> {
        match self {
            MailError::MailboxInvalidDomain { .. } => "this mailbox is invalid: can't distinguish domain part"@,
            MailError::ServerNotFound { domain } => "couldn't find server entry for this mailbox: "@
                + domain@,
            MailError::MessageParseFailed => "couldn't parse message"@,
            MailError::Imap(_) => "Imap-specific error"@,
            MailError::Pop(_) => "pop-specific erro"@,
            MailError::Proxy(_) => "failed connection to proxy"@,
            MailError::ResolveDns => "failed to resolve dns of email server"@,
            MailError::Socket(_) => "socket failed"@,
        }
    }

    /// The text of the error, as shown to a user.
    pub fn message(&self) -> (message: String)
        ensures
            message@ == self.text(),
    {
        match self {
            MailError::MailboxInvalidDomain { .. } => String::from_str(
                "this mailbox is invalid: can't distinguish domain part",
            ),
            MailError::ServerNotFound { domain } => {
                let mut message = String::from_str("couldn't find server entry for this mailbox: ");
                message.append(domain.as_str());
                message
            },
            MailError::MessageParseFailed => String::from_str("couldn't parse message"),
            MailError::Imap(_) => String::from_str("Imap-specific error"),
            MailError::Pop(_) => String::from_str("pop-specific erro"),
            MailError::Proxy(_) => String::from_str("failed connection to proxy"),
            MailError::ResolveDns => String::from_str("failed to resolve dns of email server"),
            MailError::Socket(_) => String::from_str("socket failed"),
        }
    }
}

impl From<async_imap::error::Error> for MailError {
    fn from(cause: async_imap::error::Error) -> (error: Self) {
        MailError::Imap(cause)
    }
}

impl FromSpecImpl<async_imap::error::Error> for MailError {
    open spec fn obeys_from_spec() -> bool {
        true
    }

    open spec fn from_spec(cause: async_imap::error::Error) -> Self {
        MailError::Imap(cause)
    }
}

impl From<async_pop2::error::Error> for MailError {
    fn from(cause: async_pop2::error::Error) -> (error: Self) {
        MailError::Pop(cause)
    }
}

impl FromSpecImpl<async_pop2::error::Error> for MailError {
    open spec fn obeys_from_spec() -> bool {
        true
    }

    open spec fn from_spec(cause: async_pop2::error::Error) -> Self {
        MailError::Pop(cause)
    }
}

impl From<proxied::ConnectError> for MailError {
    fn from(cause: proxied::ConnectError) -> (error: Self) {
        MailError::Proxy(cause)
    }
}

impl FromSpecImpl<proxied::ConnectError> for MailError {
    open spec fn obeys_from_spec() -> bool {
        true
    }

    open spec fn from_spec(cause: proxied::ConnectError) -> Self {
        MailError::Proxy(cause)
    }
}

impl From<std::io::Error> for MailError {
    fn from(cause: std::io::Error) -> (error: Self) {
        MailError::Socket(cause)
    }
}

impl FromSpecImpl<std::io::Error> for MailError {
    open spec fn obeys_from_spec() -> bool {
        true
    }

    open spec fn from_spec(cause: std::io::Error) -> Self {
        MailError::Socket(cause)
    }
}

} // verus!

//! Choosing how to reach a mailbox: which server, which protocol first, and
//! what to fall back on.

use crate::error::MailError;
use crate::imap_protocol::{is_imap_login, ImapConnector, ImapLogin};
use crate::mailbox::{domain_part, Mailbox};
use crate::pop3_protocol::{is_pop3_login, Pop3Connector, Pop3Login};
use crate::server_map::{EndpointView, Endpoints, ServerMap};
use vstd::prelude::*;
use vstd::string::StringExecFns;

verus! {

/// What is left to try after IMAP: the POP3 login, where the server offers
/// POP3.
#[derive(Debug)]
pub struct Fallback {
    pop3: Option<Pop3Login>,
}

/// How to start connecting.
#[derive(Debug)]
pub enum ConnectStep {
    /// Connect over IMAP. Where that fails, ask the fallback.
    ConnectImap(ImapLogin, Fallback),
    /// Connect over POP3. Whatever comes of it is the outcome.
    ConnectPop3(Pop3Login),
}

impl Fallback {
    /// The POP3 login that follows a failed IMAP attempt, if there is one.
    pub closed spec fn pop3(&self) -> Option<Pop3Login> {
        self.pop3
    }

    /// What follows a failed IMAP attempt. Where the server offers POP3,
    /// POP3 is tried, and its outcome replaces the IMAP error. Where it does
    /// not, the IMAP error is the outcome.
    pub fn after_imap_failure(self, error: MailError) -> (next: Result<Pop3Login, MailError>)
        ensures
            match self.pop3() {
                Some(login) => next == Ok::<Pop3Login, MailError>(login),
                None => next == Err::<Pop3Login, MailError>(error),
            },
    {
        match self.pop3 {
            Some(login) => Ok(login),
            None => Err(error),
        }
    }
}

/// `fallback` is what the mailbox falls back on at a server with this POP3
/// listener, or without one.
pub open spec fn is_fallback(fallback: Fallback, mailbox: Mailbox, pop3: Option<EndpointView>) -> bool {
    match pop3 {
        Some(endpoint) => fallback.pop3() matches Some(login) && is_pop3_login(
            login,
            mailbox,
            endpoint,
        ),
        None => fallback.pop3() is None,
    }
}

/// How to connect `mailbox`, by the directory `map`. The domain of the
/// mailbox is looked up; IMAP comes first where the server offers it, with
/// POP3 to fall back on; a server without IMAP is reached over POP3.
///
/// Fails with `MailboxInvalidDomain` where the login has no domain part,
/// and with `ServerNotFound` where the directory does not know the domain.
pub fn connect_any(mailbox: &Mailbox, map: &ServerMap) -> (outcome: Result<ConnectStep, MailError>)
    ensures
        match domain_part(mailbox.email@) {
            None => outcome matches Err(MailError::MailboxInvalidDomain { login }) && login@
                == mailbox.email@,
            Some(domain) => if !map@.contains_key(domain) {
                outcome matches Err(MailError::ServerNotFound { domain: missing }) && missing@
                    == domain
            } else {
                match map@[domain].imap {
                    Some(imap) => outcome matches Ok(ConnectStep::ConnectImap(login, fallback))
                        && is_imap_login(login, *mailbox, imap) && is_fallback(
                        fallback,
                        *mailbox,
                        map@[domain].pop3,
                    ),
                    None => outcome matches Ok(ConnectStep::ConnectPop3(login)) && map@[domain].pop3 matches Some(
                        pop3,
                    ) && is_pop3_login(login, *mailbox, pop3),
                }
            },
        },
{
    let domain = match mailbox.get_domain() {
        Some(domain) => domain,
        None => {
            return Err(MailError::MailboxInvalidDomain { login: mailbox.email.clone() });
        },
    };
    let entry = match map.get_by_domain(domain) {
        Some(entry) => entry,
        None => {
            return Err(MailError::ServerNotFound { domain: String::from_str(domain) });
        },
    };
    match entry {
        Endpoints::Imap { imap } => Ok(
            ConnectStep::ConnectImap(
                ImapConnector::prepare(mailbox, imap),
                Fallback { pop3: None },
            ),
        ),
        Endpoints::Full { pop3, imap } => Ok(
            ConnectStep::ConnectImap(
                ImapConnector::prepare(mailbox, imap),
                Fallback { pop3: Some(Pop3Connector::prepare(mailbox, pop3)) },
            ),
        ),
        Endpoints::Pop3 { pop3 } => Ok(
            ConnectStep::ConnectPop3(Pop3Connector::prepare(mailbox, pop3)),
        ),
    }
}

} // verus!

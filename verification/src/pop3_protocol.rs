//! The POP3 side: what a session logs in with, the fetch of a mailbox
//! message by message, and suspension by disconnecting.

use crate::crawl::{message_views, take_in, with_message};
use crate::error::MailError;
use crate::filters::Filter;
use crate::mailbox::{AuthorizationMechanism, Mailbox};
use crate::message::{parsed_message, MessageView, OwnedMessage};
use crate::server_map::EndpointView;
use vstd::prelude::*;

verus! {

/// How a POP3 session authenticates.
#[derive(Debug, PartialEq, Eq)]
pub enum Pop3Credentials {
    /// `USER` and `PASS`.
    Password { user: String, password: String },
    /// SASL `XOAUTH2` with an access token.
    OAuth2 { user: String, token: String },
}

/// What it takes to open a POP3 session: where to connect and what to
/// authenticate with.
#[derive(Debug, PartialEq, Eq)]
pub struct Pop3Login {
    pub domain: String,
    pub port: u16,
    pub credentials: Pop3Credentials,
}

/// `login` is the login of `mailbox` at `endpoint`: it connects there, and
/// authenticates as the mailbox with its password or its token.
pub open spec fn is_pop3_login(login: Pop3Login, mailbox: Mailbox, endpoint: EndpointView) -> bool {
    &&& login.domain@ == endpoint.domain
    &&& login.port == endpoint.port
    &&& match mailbox.auth {
        AuthorizationMechanism::Password { password } => {
            &&& login.credentials matches Pop3Credentials::Password { user, password: secret }
            &&& user@ == mailbox.email@
            &&& secret@ == password@
        },
        AuthorizationMechanism::OAuth2 { token } => {
            &&& login.credentials matches Pop3Credentials::OAuth2 { user, token: secret }
            &&& user@ == mailbox.email@
            &&& secret@ == token@
        },
    }
}

/// Prepares POP3 sessions.
pub struct Pop3Connector;

impl Pop3Connector {
    /// The login for `mailbox` at `endpoint`: the password of the mailbox,
    /// or its token.
    pub fn prepare(mailbox: &Mailbox, endpoint: &crate::server_map::Pop3) -> (login: Pop3Login)
        ensures
            is_pop3_login(login, *mailbox, endpoint@),
    {
        let credentials = match &mailbox.auth {
            AuthorizationMechanism::Password { password } => Pop3Credentials::Password {
                user: mailbox.email.clone(),
                password: password.clone(),
            },
            AuthorizationMechanism::OAuth2 { token } => Pop3Credentials::OAuth2 {
                user: mailbox.email.clone(),
                token: token.clone(),
            },
        };
        Pop3Login { domain: endpoint.0.domain.clone(), port: endpoint.0.port, credentials }
    }
}

/// A fetch in progress: the number of the message that is retrieved next,
/// the number of messages in the mailbox, and what was kept so far.
#[derive(Debug)]
pub struct Pop3Fetch {
    next: usize,
    total: usize,
    found: Vec<OwnedMessage>,
}

/// What a fetch does next.
#[derive(Debug)]
pub enum Pop3Step {
    /// Retrieve the message that the fetch asks for, then hand its bytes to
    /// [`Pop3Fetch::receive`].
    Retrieve(Pop3Fetch),
    /// The fetch is over, and these are the messages it kept.
    Finished(Vec<OwnedMessage>),
}

impl Pop3Fetch {
    /// The number of the message to retrieve.
    pub closed spec fn wanted(&self) -> int {
        self.next as int
    }

    /// The number of messages in the mailbox.
    pub closed spec fn total(&self) -> int {
        self.total as int
    }

    /// The messages kept so far.
    pub closed spec fn found(&self) -> Seq<MessageView> {
        message_views(self.found@)
    }

    #[verifier::type_invariant]
    spec fn in_range(self) -> bool {
        1 <= self.next <= self.total
    }

    /// Starts the fetch of a mailbox that reports `total` messages. With no
    /// message there is nothing to retrieve, and the fetch is over at once.
    /// Otherwise the first message is asked for.
    pub fn begin(total: usize) -> (step: Pop3Step)
        ensures
            total < 1 ==> (step matches Pop3Step::Finished(found) && found@.len() == 0),
            total >= 1 ==> (step matches Pop3Step::Retrieve(fetch) && fetch.wanted() == 1
                && fetch.total() == total && fetch.found().len() == 0),
    {
        let found: Vec<OwnedMessage> = Vec::new();
        if total < 1 {
            return Pop3Step::Finished(found);
        }
        Pop3Step::Retrieve(Pop3Fetch { next: 1, total, found })
    }

    /// The number of the message to retrieve.
    pub fn message_number(&self) -> (number: usize)
        ensures
            number == self.wanted(),
            1 <= number <= self.total(),
    {
        proof {
            use_type_invariant(self);
        }
        self.next
    }

    /// Takes in the bytes of the message that was asked for. Bytes that do
    /// not parse end the fetch with an error. Otherwise the message is kept
    /// where `filter` accepts it, and the fetch goes on to the next message,
    /// or is over where this was the last.
    pub fn receive<F: Filter>(self, raw: Vec<u8>, filter: &F) -> (outcome: Result<
        Pop3Step,
        MailError,
    >)
        ensures
            match parsed_message(raw@) {
                None => outcome matches Err(MailError::MessageParseFailed),
                Some(message) => {
                    let kept = with_message(self.found(), message, *filter);
                    if self.wanted() == self.total() {
                        outcome matches Ok(Pop3Step::Finished(found)) && message_views(found@)
                            == kept
                    } else {
                        outcome matches Ok(Pop3Step::Retrieve(fetch)) && fetch.wanted()
                            == self.wanted() + 1 && fetch.total() == self.total() && fetch.found()
                            == kept
                    }
                },
            },
    {
        proof {
            use_type_invariant(&self);
        }
        let Pop3Fetch { next, total, mut found } = self;
        match take_in(raw, filter, &mut found) {
            Ok(()) => {
                if next == total {
                    Ok(Pop3Step::Finished(found))
                } else {
                    Ok(Pop3Step::Retrieve(Pop3Fetch { next: next + 1, total, found }))
                }
            },
            Err(error) => Err(error),
        }
    }
}

/// The part of a POP3 session that outlives a disconnect: the credentials
/// it was opened with.
pub struct Pop3 {
    mailbox_info: Mailbox,
}

/// A suspended POP3 session. POP3 has nothing to keep alive: the session is
/// closed, and what is kept is what it takes to open it again.
pub struct Pop3Idle {
    mailbox_info: Mailbox,
}

impl Pop3 {
    /// The credentials the session was opened with.
    pub closed spec fn mailbox(&self) -> Mailbox {
        self.mailbox_info
    }

    /// The session opened with `mailbox_info`.
    pub fn new(mailbox_info: Mailbox) -> (session: Self)
        ensures
            session.mailbox() == mailbox_info,
    {
        Pop3 { mailbox_info }
    }

    /// Starts a fetch on a mailbox that reports `total` messages.
    pub fn begin_fetch(&self, total: usize) -> (step: Pop3Step)
        ensures
            total < 1 ==> (step matches Pop3Step::Finished(found) && found@.len() == 0),
            total >= 1 ==> (step matches Pop3Step::Retrieve(fetch) && fetch.wanted() == 1
                && fetch.total() == total && fetch.found().len() == 0),
    {
        Pop3Fetch::begin(total)
    }

    /// Suspends the session. The caller quits the connection; the
    /// credentials stay with the suspended session.
    pub fn idlize(self) -> (idle: Pop3Idle)
        ensures
            idle.mailbox() == self.mailbox(),
    {
        Pop3Idle { mailbox_info: self.mailbox_info }
    }
}

impl Pop3Idle {
    /// The credentials the session was opened with.
    pub closed spec fn mailbox(&self) -> Mailbox {
        self.mailbox_info
    }

    /// Ends the suspension: the credentials to connect with again.
    pub fn done(self) -> (mailbox_info: Mailbox)
        ensures
            mailbox_info == self.mailbox(),
    {
        self.mailbox_info
    }
}

} // verus!

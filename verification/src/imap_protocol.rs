//! The IMAP side: what is sent to authenticate, which folders are crawled,
//! and what a crawl keeps of the messages it fetched.

use crate::crawl::{kept_messages, lemma_kept_messages_push, message_views, take_in};
use crate::error::MailError;
use crate::filters::Filter;
use crate::mailbox::{AuthorizationMechanism, Mailbox};
use crate::message::{parsed_message, MessageView, OwnedMessage};
use crate::server_map::{EndpointView, Imap};
use vstd::prelude::*;
use vstd::string::StringExecFns;

verus! {

/// The response of the `PLAIN` mechanism: a NUL, the login, a NUL, the
/// password.
pub open spec fn plain_response(login: Seq<char>, password: Seq<char>) -> Seq<char> {
    seq!['\0'] + login + seq!['\0'] + password
}

/// The response of the `XOAUTH2` mechanism.
pub open spec fn xoauth2_response(login: Seq<char>, token: Seq<char>) -> Seq<char> {
    "user="@ + login + "\x01auth=Bearer "@ + token + "\x01\x01"@
}

/// Credentials for the `PLAIN` mechanism.
#[derive(Debug)]
pub struct PlainAuth {
    pub login: String,
    pub password: String,
}

impl PlainAuth {
    /// The response to the challenge of the server. The challenge is not
    /// read: the mechanism has one step.
    pub fn process(&mut self, challenge: &[u8]) -> (response: String)
        ensures
            response@ == plain_response(old(self).login@, old(self).password@),
            *final(self) == *old(self),
    {
        proof {
            reveal_strlit("\0");
        }
        let mut response = String::from_str("\0");
        response.append(self.login.as_str());
        response.append("\0");
        response.append(self.password.as_str());
        response
    }
}

/// Credentials for the `XOAUTH2` mechanism.
pub struct OAuth2<'a> {
    pub login: &'a str,
    pub token: &'a str,
}

impl<'a> OAuth2<'a> {
    /// The response to the challenge of the server. The challenge is not
    /// read: the mechanism has one step.
    pub fn process(&mut self, challenge: &[u8]) -> (response: String)
        ensures
            response@ == xoauth2_response(old(self).login@, old(self).token@),
            *final(self) == *old(self),
    {
        let mut response = String::from_str("user=");
        response.append(self.login);
        response.append("\x01auth=Bearer ");
        response.append(self.token);
        response.append("\x01\x01");
        response
    }
}

/// A mechanism by which a session authenticates.
#[derive(Clone, Copy, Debug, PartialEq, Eq, Structural)]
pub enum SaslMechanism {
    Plain,
    XOAuth2,
}

impl SaslMechanism {
    /// The name of the mechanism on the wire.
    pub open spec fn wire_name(self) -> Seq<char> {
        match self {
            SaslMechanism::Plain => "PLAIN"@,
            SaslMechanism::XOAuth2 => "XOAUTH2"@,
        }
    }

    /// The name of the mechanism on the wire.
    pub fn name(self) -> (name: &'static str)
        ensures
            name@ == self.wire_name(),
    {
        match self {
            SaslMechanism::Plain => "PLAIN",
            SaslMechanism::XOAuth2 => "XOAUTH2",
        }
    }
}

/// What it takes to open an IMAP session: where to connect, and what to
/// authenticate with once the server has answered the capability probe.
#[derive(Debug, PartialEq, Eq)]
pub struct ImapLogin {
    pub domain: String,
    pub port: u16,
    pub mechanism: SaslMechanism,
    pub response: String,
}

/// `login` is the login of `mailbox` at `endpoint`: it connects there, and
/// authenticates with `PLAIN` and the password of the mailbox, or with
/// `XOAUTH2` and its token.
pub open spec fn is_imap_login(login: ImapLogin, mailbox: Mailbox, endpoint: EndpointView) -> bool {
    &&& login.domain@ == endpoint.domain
    &&& login.port == endpoint.port
    &&& match mailbox.auth {
        AuthorizationMechanism::Password { password } => {
            &&& login.mechanism == SaslMechanism::Plain
            &&& login.response@ == plain_response(mailbox.email@, password@)
        },
        AuthorizationMechanism::OAuth2 { token } => {
            &&& login.mechanism == SaslMechanism::XOAuth2
            &&& login.response@ == xoauth2_response(mailbox.email@, token@)
        },
    }
}

/// Prepares IMAP sessions.
pub struct ImapConnector;

impl ImapConnector {
    /// The login for `mailbox` at `endpoint`: `PLAIN` with the password of
    /// the mailbox, or `XOAUTH2` with its token.
    pub fn prepare(mailbox: &Mailbox, endpoint: &Imap) -> (login: ImapLogin)
        ensures
            is_imap_login(login, *mailbox, endpoint@),
    {
        let domain = endpoint.0.domain.clone();
        let port: u16 = endpoint.0.port;
        match &mailbox.auth {
            AuthorizationMechanism::Password { password } => {
                let mut auth = PlainAuth { login: mailbox.email.clone(), password: password.clone() };
                let response = auth.process(&[]);
                ImapLogin { domain, port, mechanism: SaslMechanism::Plain, response }
            },
            AuthorizationMechanism::OAuth2 { token } => {
                let mut auth = OAuth2 { login: mailbox.email.as_str(), token: token.as_str() };
                let response = auth.process(&[]);
                ImapLogin { domain, port, mechanism: SaslMechanism::XOAuth2, response }
            },
        }
    }
}

/// The decimal digit of a number below ten.
pub open spec fn digit(d: nat) -> char {
    if d == 0 {
        '0'
    } else if d == 1 {
        '1'
    } else if d == 2 {
        '2'
    } else if d == 3 {
        '3'
    } else if d == 4 {
        '4'
    } else if d == 5 {
        '5'
    } else if d == 6 {
        '6'
    } else if d == 7 {
        '7'
    } else if d == 8 {
        '8'
    } else {
        '9'
    }
}

/// The decimal numeral of `n`, without leading zeros.
pub open spec fn decimal(n: nat) -> Seq<char>
    decreases n,
{
    if n < 10 {
        seq![digit(n)]
    } else {
        decimal(n / 10).push(digit(n % 10))
    }
}

/// The message set that names every message of a folder with `exists`
/// messages: `1:` and the count.
pub open spec fn whole_folder(exists: u32) -> Seq<char> {
    "1:"@ + decimal(exists as nat)
}

fn digit_text(d: u32) -> (text: &'static str)
    requires
        d < 10,
    ensures
        text@ == seq![digit(d as nat)],
{
    proof {
        reveal_strlit("0");
        reveal_strlit("1");
        reveal_strlit("2");
        reveal_strlit("3");
        reveal_strlit("4");
        reveal_strlit("5");
        reveal_strlit("6");
        reveal_strlit("7");
        reveal_strlit("8");
        reveal_strlit("9");
    }
    let text = if d == 0 {
        "0"
    } else if d == 1 {
        "1"
    } else if d == 2 {
        "2"
    } else if d == 3 {
        "3"
    } else if d == 4 {
        "4"
    } else if d == 5 {
        "5"
    } else if d == 6 {
        "6"
    } else if d == 7 {
        "7"
    } else if d == 8 {
        "8"
    } else {
        "9"
    };
    text
}

fn write_decimal(n: u32, out: &mut String)
    ensures
        final(out)@ == old(out)@ + decimal(n as nat),
    decreases n,
{
    if n >= 10 {
        write_decimal(n / 10, out);
    }
    out.append(digit_text(n % 10));
}

/// An attribute that a server attaches to a folder name in its listing.
#[derive(Debug, PartialEq, Eq)]
pub enum FolderAttribute {
    NoInferiors,
    NoSelect,
    Marked,
    Unmarked,
    All,
    Archive,
    Drafts,
    Flagged,
    Junk,
    Sent,
    Trash,
    /// An attribute this library has no name for.
    Extension(String),
}

/// One line of a folder listing.
#[derive(Debug, PartialEq, Eq)]
pub struct ListedFolder {
    pub name: String,
    pub attributes: Vec<FolderAttribute>,
}

/// An attribute that keeps a folder out of the crawl: the folder holds
/// outgoing mail, sent or still being written.
pub open spec fn is_outgoing(attribute: FolderAttribute) -> bool {
    attribute is Sent || attribute is Drafts
}

/// A folder is crawled where none of its attributes marks it as outgoing.
pub open spec fn is_crawlable(attributes: Seq<FolderAttribute>) -> bool {
    forall|i: int| 0 <= i < attributes.len() ==> !is_outgoing(#[trigger] attributes[i])
}

/// `k` is the position of the first failed item.
pub open spec fn first_failure<T, E>(items: Seq<Result<T, E>>, k: int) -> bool {
    &&& 0 <= k < items.len()
    &&& items[k] is Err
    &&& forall|j: int| 0 <= j < k ==> (#[trigger] items[j]) is Ok
}

/// No item has failed.
pub open spec fn all_ok<T, E>(items: Seq<Result<T, E>>) -> bool {
    forall|j: int| 0 <= j < items.len() ==> (#[trigger] items[j]) is Ok
}

/// The names of the listed folders that are crawled, in listing order.
pub open spec fn crawlable_names<E>(listed: Seq<Result<ListedFolder, E>>) -> Seq<Seq<char>> {
    listed.filter(|item: Result<ListedFolder, E>| is_crawlable(item->Ok_0.attributes@)).map_values(
        |item: Result<ListedFolder, E>| item->Ok_0.name@,
    )
}

/// The views of a list of strings.
pub open spec fn text_views(texts: Seq<String>) -> Seq<Seq<char>> {
    texts.map_values(|text: String| text@)
}

/// The bytes of a fetched item: its body, or no bytes where the server sent
/// no body.
pub open spec fn body_bytes(body: Option<Vec<u8>>) -> Seq<u8> {
    match body {
        Some(bytes) => bytes@,
        None => Seq::empty(),
    }
}

/// A fetched item gives no message: the fetch failed, or the bytes do not
/// parse.
pub open spec fn is_unusable<E>(item: Result<Option<Vec<u8>>, E>) -> bool {
    item is Err || parsed_message(body_bytes(item->Ok_0)) is None
}

/// `k` is the position of the first fetched item that gives no message.
pub open spec fn first_unusable<E>(fetched: Seq<Result<Option<Vec<u8>>, E>>, k: int) -> bool {
    &&& 0 <= k < fetched.len()
    &&& is_unusable(fetched[k])
    &&& forall|j: int| 0 <= j < k ==> !is_unusable(#[trigger] fetched[j])
}

/// The messages that the fetched items hold, in fetch order.
pub open spec fn fetched_messages<E>(fetched: Seq<Result<Option<Vec<u8>>, E>>) -> Seq<
    MessageView,
> {
    fetched.map_values(
        |item: Result<Option<Vec<u8>>, E>| parsed_message(body_bytes(item->Ok_0))->Some_0,
    )
}

/// The command that asks the server what it is capable of. It is sent
/// before the session authenticates.
pub const CAPABILITY_PROBE: &'static str = "CAPABILITY";

/// The pattern that lists every folder.
pub const EVERY_FOLDER: &'static str = "*";

/// The data item that fetches a message whole and raw.
pub const WHOLE_MESSAGE: &'static str = "RFC822";

/// The IMAP crawl.
pub struct ImapProtocol;

impl ImapProtocol {
    /// Whether a folder with these attributes is crawled.
    pub fn is_ok_folder(attributes: &Vec<FolderAttribute>) -> (crawled: bool)
        ensures
            crawled == is_crawlable(attributes@),
    {
        let mut i: usize = 0;
        while i < attributes.len()
            invariant
                i <= attributes.len(),
                forall|j: int| 0 <= j < i ==> !is_outgoing(#[trigger] attributes@[j]),
            decreases attributes.len() - i,
        {
            match attributes[i] {
                FolderAttribute::Sent => {
                    return false;
                },
                FolderAttribute::Drafts => {
                    return false;
                },
                _ => {},
            }
            i += 1;
        }
        true
    }

    /// The folders to crawl, out of the listing of the server: every folder
    /// but those marked as sent or drafts, in listing order. The first
    /// failed line of the listing fails the whole.
    pub fn get_folders(listed: Vec<Result<ListedFolder, async_imap::error::Error>>) -> (outcome:
        Result<Vec<String>, MailError>)
        ensures
            match outcome {
                Ok(names) => all_ok(listed@) && text_views(names@) == crawlable_names(listed@),
                Err(error) => exists|k: int|
                    first_failure(listed@, k) && error == MailError::Imap(listed@[k]->Err_0),
            },
    {
        let mut server_folders: Vec<String> = Vec::new();
        for item in it: listed
            invariant
                it.seq() == listed@,
                forall|j: int| 0 <= j < it.index() ==> (#[trigger] listed@[j]) is Ok,
                text_views(server_folders@) == crawlable_names(listed@.take(it.index() as int)),
        {
            let ghost seen = listed@.take(it.index() as int);
            proof {
                assert(listed@.take(it.index() + 1) =~= seen.push(item));
                lemma_crawlable_names_push(seen, item);
            }
            match item {
                Ok(folder) => {
                    if Self::is_ok_folder(&folder.attributes) {
                        let ghost before = server_folders@;
                        server_folders.push(folder.name);
                        assert(text_views(server_folders@) =~= text_views(before).push(
                            folder.name@,
                        ));
                    }
                },
                Err(error) => {
                    assert(first_failure(listed@, it.index() as int));
                    return Err(MailError::Imap(error));
                },
            }
        }
        assert(listed@.take(listed@.len() as int) =~= listed@);
        Ok(server_folders)
    }

    /// The message set to fetch for a folder that holds `exists` messages.
    pub fn fetch_range(exists: u32) -> (range: String)
        ensures
            range@ == whole_folder(exists),
    {
        let mut range = String::from_str("1:");
        write_decimal(exists, &mut range);
        range
    }

    /// What a crawl of one folder keeps: the messages that `filter` accepts
    /// among those fetched, in fetch order. An item without a body counts as
    /// a message of no bytes. The first item whose fetch failed, or whose
    /// bytes do not parse, fails the whole crawl.
    pub fn crawl_messages<F: Filter>(
        fetched: Vec<Result<Option<Vec<u8>>, async_imap::error::Error>>,
        filter: &F,
    ) -> (outcome: Result<Vec<OwnedMessage>, MailError>)
        ensures
            match outcome {
                Ok(found) => {
                    &&& forall|j: int| 0 <= j < fetched@.len() ==> !is_unusable(#[trigger] fetched@[j])
                    &&& message_views(found@) == kept_messages(fetched_messages(fetched@), *filter)
                },
                Err(error) => exists|k: int|
                    first_unusable(fetched@, k) && (match fetched@[k] {
                        Err(cause) => error == MailError::Imap(cause),
                        Ok(_) => error is MessageParseFailed,
                    }),
            },
    {
        let mut res: Vec<OwnedMessage> = Vec::new();
        for item in it: fetched
            invariant
                it.seq() == fetched@,
                forall|j: int| 0 <= j < it.index() ==> !is_unusable(#[trigger] fetched@[j]),
                message_views(res@) == kept_messages(
                    fetched_messages(fetched@.take(it.index() as int)),
                    *filter,
                ),
        {
            let ghost seen = fetched@.take(it.index() as int);
            match item {
                Ok(body) => {
                    let bytes = match body {
                        Some(bytes) => bytes,
                        None => Vec::new(),
                    };
                    match take_in(bytes, filter, &mut res) {
                        Ok(()) => {
                            proof {
                                let message = parsed_message(body_bytes(body))->Some_0;
                                assert(fetched_messages(fetched@.take(it.index() + 1))
                                    =~= fetched_messages(seen).push(message));
                                lemma_kept_messages_push(fetched_messages(seen), message, *filter);
                            }
                        },
                        Err(error) => {
                            assert(first_unusable(fetched@, it.index() as int));
                            return Err(error);
                        },
                    }
                },
                Err(cause) => {
                    assert(first_unusable(fetched@, it.index() as int));
                    return Err(MailError::Imap(cause));
                },
            }
        }
        assert(fetched@.take(fetched@.len() as int) =~= fetched@);
        Ok(res)
    }

    /// Starts the crawl of `folders`, in their order. With no folder there
    /// is nothing to fetch, and the crawl is over at once. Otherwise the
    /// first folder is asked for.
    pub fn crawl_folders(folders: Vec<String>) -> (step: CrawlStep)
        ensures
            folders@.len() == 0 ==> (step matches CrawlStep::Finished(found) && found@.len() == 0),
            folders@.len() > 0 ==> (step matches CrawlStep::Fetch(crawl) && crawl.position() == 0
                && crawl.folders() == text_views(folders@) && crawl.found().len() == 0),
    {
        let found: Vec<OwnedMessage> = Vec::new();
        if folders.len() == 0 {
            return CrawlStep::Finished(found);
        }
        CrawlStep::Fetch(FolderCrawl { folders, position: 0, found })
    }
}

/// A crawl in progress: the folders to crawl, the position of the folder
/// that is fetched next, and what was kept so far.
#[derive(Debug)]
pub struct FolderCrawl {
    folders: Vec<String>,
    position: usize,
    found: Vec<OwnedMessage>,
}

/// What a crawl does next.
#[derive(Debug)]
pub enum CrawlStep {
    /// Select the folder that the crawl asks for, fetch its messages, and
    /// hand them to [`FolderCrawl::receive`].
    Fetch(FolderCrawl),
    /// The crawl is over, and these are the messages it kept.
    Finished(Vec<OwnedMessage>),
}

impl FolderCrawl {
    /// The names of the folders of the crawl.
    pub closed spec fn folders(&self) -> Seq<Seq<char>> {
        text_views(self.folders@)
    }

    /// The position of the folder to fetch.
    pub closed spec fn position(&self) -> int {
        self.position as int
    }

    /// The messages kept so far.
    pub closed spec fn found(&self) -> Seq<MessageView> {
        message_views(self.found@)
    }

    #[verifier::type_invariant]
    spec fn in_range(self) -> bool {
        self.position < self.folders@.len()
    }

    /// The name of the folder to select and fetch.
    pub fn folder(&self) -> (name: &String)
        ensures
            0 <= self.position() < self.folders().len(),
            name@ == self.folders()[self.position()],
    {
        proof {
            use_type_invariant(self);
        }
        &self.folders[self.position]
    }

    /// Takes in what was fetched from the folder that was asked for. The
    /// first item that gives no message ends the crawl with an error.
    /// Otherwise the messages that `filter` accepts are added to what was
    /// kept, in fetch order, and the crawl goes on to the next folder, or is
    /// over where this was the last.
    pub fn receive<F: Filter>(
        self,
        fetched: Vec<Result<Option<Vec<u8>>, async_imap::error::Error>>,
        filter: &F,
    ) -> (outcome: Result<CrawlStep, MailError>)
        ensures
            match outcome {
                Ok(step) => {
                    let kept = self.found() + kept_messages(fetched_messages(fetched@), *filter);
                    &&& forall|j: int| 0 <= j < fetched@.len() ==> !is_unusable(#[trigger] fetched@[j])
                    &&& if self.position() + 1 == self.folders().len() {
                        step matches CrawlStep::Finished(found) && message_views(found@) == kept
                    } else {
                        step matches CrawlStep::Fetch(crawl) && crawl.position() == self.position()
                            + 1 && crawl.folders() == self.folders() && crawl.found() == kept
                    }
                },
                Err(error) => exists|k: int|
                    first_unusable(fetched@, k) && (match fetched@[k] {
                        Err(cause) => error == MailError::Imap(cause),
                        Ok(_) => error is MessageParseFailed,
                    }),
            },
    {
        proof {
            use_type_invariant(&self);
        }
        let FolderCrawl { folders, position, mut found } = self;
        let mut kept = match ImapProtocol::crawl_messages(fetched, filter) {
            Ok(kept) => kept,
            Err(error) => {
                return Err(error);
            },
        };
        let ghost before = found@;
        let ghost added = kept@;
        found.append(&mut kept);
        assert(message_views(found@) =~= message_views(before) + message_views(added));
        let count: usize = folders.len();
        if position + 1 == count {
            Ok(CrawlStep::Finished(found))
        } else {
            Ok(CrawlStep::Fetch(FolderCrawl { folders, position: position + 1, found }))
        }
    }
}

/// What one more listed line adds to the names to crawl.
proof fn lemma_crawlable_names_push<E>(
    seen: Seq<Result<ListedFolder, E>>,
    item: Result<ListedFolder, E>,
)
    ensures
        crawlable_names(seen.push(item)) == if is_crawlable(item->Ok_0.attributes@) {
            crawlable_names(seen).push(item->Ok_0.name@)
        } else {
            crawlable_names(seen)
        },
{
    let keep = |item: Result<ListedFolder, E>| is_crawlable(item->Ok_0.attributes@);
    let name = |item: Result<ListedFolder, E>| item->Ok_0.name@;
    reveal(Seq::filter);
    assert(seen.push(item).drop_last() =~= seen);
    if keep(item) {
        assert(seen.filter(keep).push(item).map_values(name) =~= seen.filter(keep).map_values(
            name,
        ).push(name(item)));
    }
}

} // verus!

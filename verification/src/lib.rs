//! The decisions of a mail reader for IMAP and POP3 mailboxes: where and how
//! to connect, which folders and messages to read, which messages a filter
//! keeps, and how a suspended session is kept alive. The library touches no
//! network: its functions say what to do next and take in what came of it.

pub mod connect;
pub mod crawl;
pub mod error;
pub mod filters;
pub mod idle;
pub mod imap_protocol;
pub mod mailbox;
pub mod message;
pub mod pop3_protocol;
pub mod server_map;
pub mod text;

pub use connect::connect_any;
pub use error::MailError;
pub use mailbox::{AuthorizationMechanism, Mailbox};

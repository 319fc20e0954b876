//! A fetched message: the raw bytes together with the header values and the
//! body text that the filters read.

use vstd::prelude::*;

verus! {

/// A parsed message that owns the bytes it was parsed from. The bytes and
/// the values read out of them are set together at construction and never
/// change afterwards.
#[derive(Debug, PartialEq, Eq)]
pub struct OwnedMessage {
    raw: Vec<u8>,
    subject: Option<String>,
    sender: Option<String>,
    date: Option<i64>,
    body_html: Option<String>,
}

/// Mathematical value of an [`OwnedMessage`].
pub struct MessageView {
    /// The bytes of the message as fetched.
    pub raw: Seq<u8>,
    /// The subject header.
    pub subject: Option<Seq<char>>,
    /// The address of the sender.
    pub sender: Option<Seq<char>>,
    /// The date header, in seconds since the Unix epoch.
    pub date: Option<i64>,
    /// The first HTML body part, rendered as text.
    pub body_html: Option<Seq<char>>,
}

/// The view of an optional string.
pub open spec fn text_view(text: Option<String>) -> Option<Seq<char>> {
    match text {
        Some(s) => Some(s@),
        None => None,
    }
}

impl View for OwnedMessage {
    type V = MessageView;

    closed spec fn view(&self) -> MessageView {
        MessageView {
            raw: self.raw@,
            subject: text_view(self.subject),
            sender: text_view(self.sender),
            date: self.date,
            body_html: text_view(self.body_html),
        }
    }
}

/// What `mail_parser` reads out of the bytes of a message: the subject, the
/// address of the sender, the date in seconds since the Unix epoch and the
/// first HTML body, each where the message has it. `None` where the bytes do
/// not parse as a message.
pub uninterp spec fn parsed_fields(raw: Seq<u8>) -> Option<
    (Option<Seq<char>>, Option<Seq<char>>, Option<i64>, Option<Seq<char>>),
>;

/// The message that the bytes `raw` hold, where they parse.
pub open spec fn parsed_message(raw: Seq<u8>) -> Option<MessageView> {
    match parsed_fields(raw) {
        Some((subject, sender, date, body_html)) => Some(
            MessageView { raw, subject, sender, date, body_html },
        ),
        None => None,
    }
}

/// Parses `raw` with `mail_parser::MessageParser::parse` (default settings)
/// and copies out what the filters read: `Message::subject`, the address of
/// the first entry of `Message::sender`, `Message::date` converted with
/// `DateTime::to_timestamp`, and `Message::body_html(0)`. The parser is a
/// function of the bytes alone and does not panic; the contract gives its
/// result the name [`parsed_fields`] and claims nothing else.
#[verifier::external_body]
fn read_fields(raw: &Vec<u8>) -> (fields: Option<
    (Option<String>, Option<String>, Option<i64>, Option<String>),
>)
    ensures
        match fields {
            Some((subject, sender, date, body_html)) => parsed_fields(raw@) == Some(
                (text_view(subject), text_view(sender), date, text_view(body_html)),
            ),
            None => parsed_fields(raw@) is None,
        },
{
    let parsed = mail_parser::MessageParser::new().parse(raw.as_slice())?;
    let subject = parsed.subject().map(|s| s.to_string());
    let sender = parsed.sender().and_then(|list| list.first()).and_then(|entry| entry.address());
    let date = parsed.date().map(|date| date.to_timestamp());
    let body_html = parsed.body_html(0).map(|body| body.into_owned());
    Some((subject, sender.map(|s| s.to_string()), date, body_html))
}

impl OwnedMessage {
    /// Parses the bytes of a message and takes ownership of them. `None`
    /// where they do not parse.
    pub fn parse(raw: Vec<u8>) -> (message: Option<Self>)
        ensures
            match message {
                Some(m) => parsed_message(raw@) == Some(m@),
                None => parsed_message(raw@) is None,
            },
    {
        match read_fields(&raw) {
            Some((subject, sender, date, body_html)) => Some(
                OwnedMessage::from_parts(raw, subject, sender, date, body_html),
            ),
            None => None,
        }
    }

    /// A message with the given bytes and the given values read out of them.
    pub fn from_parts(
        raw: Vec<u8>,
        subject: Option<String>,
        sender: Option<String>,
        date: Option<i64>,
        body_html: Option<String>,
    ) -> (message: Self)
        ensures
            message@ == (MessageView {
                raw: raw@,
                subject: text_view(subject),
                sender: text_view(sender),
                date,
                body_html: text_view(body_html),
            }),
    {
        OwnedMessage { raw, subject, sender, date, body_html }
    }

    /// The bytes the message was parsed from.
    pub fn raw(&self) -> (bytes: &Vec<u8>)
        ensures
            bytes@ == self@.raw,
    {
        &self.raw
    }

    /// The subject header.
    pub fn subject(&self) -> (subject: Option<&String>)
        ensures
            match subject {
                Some(s) => self@.subject == Some(s@),
                None => self@.subject is None,
            },
    {
        self.subject.as_ref()
    }

    /// The address of the sender.
    pub fn sender(&self) -> (sender: Option<&String>)
        ensures
            match sender {
                Some(s) => self@.sender == Some(s@),
                None => self@.sender is None,
            },
    {
        self.sender.as_ref()
    }

    /// The date header, in seconds since the Unix epoch.
    pub fn date(&self) -> (date: Option<i64>)
        ensures
            date == self@.date,
    {
        self.date
    }

    /// The first HTML body part.
    pub fn body_html(&self) -> (body: Option<&String>)
        ensures
            match body {
                Some(s) => self@.body_html == Some(s@),
                None => self@.body_html is None,
            },
    {
        self.body_html.as_ref()
    }
}

} // verus!

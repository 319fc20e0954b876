//! The step that every crawl repeats: parse the bytes of one fetched
//! message, and keep the message where the filter accepts it.

use crate::error::MailError;
use crate::filters::Filter;
use crate::message::{parsed_message, MessageView, OwnedMessage};
use vstd::prelude::*;

verus! {

/// The values of a list of messages.
pub open spec fn message_views(messages: Seq<OwnedMessage>) -> Seq<MessageView> {
    messages.map_values(|message: OwnedMessage| message@)
}

/// What a crawl holds after a message with value `message` came in: the
/// message is added at the end where the filter accepts it.
pub open spec fn with_message<F: Filter>(
    found: Seq<MessageView>,
    message: MessageView,
    filter: F,
) -> Seq<MessageView> {
    if filter.matches(message) {
        found.push(message)
    } else {
        found
    }
}

/// Takes in what parsing one fetched message gave. A message is added to
/// `found` where `filter` accepts it. No message means that the bytes did
/// not parse: that is an error, and `found` stays as it was.
pub fn keep<F: Filter>(
    parsed: Option<OwnedMessage>,
    filter: &F,
    found: &mut Vec<OwnedMessage>,
) -> (outcome: Result<(), MailError>)
    ensures
        match parsed {
            Some(message) => outcome is Ok && message_views(final(found)@) == with_message(
                message_views(old(found)@),
                message@,
                *filter,
            ),
            None => outcome matches Err(MailError::MessageParseFailed) && final(found)@ == old(
                found,
            )@,
        },
{
    match parsed {
        Some(message) => {
            if filter.filter(&message) {
                found.push(message);
            }
            Ok(())
        },
        None => Err(MailError::MessageParseFailed),
    }
}

/// Parses `raw` and adds the message to `found` where `filter` accepts it.
/// Bytes that do not parse are an error, and `found` stays as it was.
pub fn take_in<F: Filter>(raw: Vec<u8>, filter: &F, found: &mut Vec<OwnedMessage>) -> (outcome: Result<
    (),
    MailError,
>)
    ensures
        match parsed_message(raw@) {
            Some(message) => outcome is Ok && message_views(final(found)@) == with_message(
                message_views(old(found)@),
                message,
                *filter,
            ),
            None => outcome matches Err(MailError::MessageParseFailed) && final(found)@ == old(
                found,
            )@,
        },
{
    keep(OwnedMessage::parse(raw), filter, found)
}

/// The messages of `messages` that `filter` accepts, in their order.
pub open spec fn kept_messages<F: Filter>(messages: Seq<MessageView>, filter: F) -> Seq<
    MessageView,
> {
    messages.filter(|message: MessageView| filter.matches(message))
}

/// Keeping the accepted messages of a longer list is keeping those of the
/// shorter one and then taking in the last.
pub proof fn lemma_kept_messages_push<F: Filter>(
    messages: Seq<MessageView>,
    message: MessageView,
    filter: F,
)
    ensures
        kept_messages(messages.push(message), filter) == with_message(
            kept_messages(messages, filter),
            message,
            filter,
        ),
{
    reveal(Seq::filter);
    assert(messages.push(message).drop_last() =~= messages);
}

} // verus!

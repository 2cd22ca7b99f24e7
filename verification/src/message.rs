//! The messages that two peers exchange, and how each is laid out in bytes.
//!
//! A message starts with a 32-bit tag, little-endian, that numbers its kind
//! in the order of the enumeration; its fields follow in order, each in the
//! encoding of its type (see [`crate::wire`]).

use vstd::prelude::*;
use vstd::utf8::*;
use crate::wire::{
    blob_bytes, bool_byte, in_reach, lemma_blob_round_trip, lemma_bool_round_trip,
    lemma_text_round_trip, lemma_u16_round_trip, lemma_u32_round_trip, parse_blob, parse_bool,
    parse_text, put_blob, put_bool, put_text, put_u16, put_u32, take_blob, take_bool, take_text,
    take_u16, take_u32, text_bytes, u16_at, u16_le, u32_at, u32_le,
};

verus! {

/// The first frame in each direction: the protocol version of the sender.
#[derive(Debug, Clone, Copy, PartialEq, Eq)]
pub struct Header {
    pub version: u16,
}

/// A control or payload message.
#[derive(Debug, Clone, PartialEq, Eq)]
pub enum Message {
    /// Something went wrong and the sender cannot recover.
    FatalError { message: String },
    /// The sender is closing, and there is nothing unexpected about that.
    Hangup,
    /// A topic has appeared on the sender's bus.
    NewTopic { name: String, message_type: String },
    /// The sender gained or lost its consumers of a mirrored topic.
    SetTopicSubscribed { name: String, subscribed: bool },
    /// A topic has disappeared from the sender's bus.
    DeletedTopic { name: String },
    /// A payload published on a topic of the sender's bus.
    PublishToTopic { name: String, payload: Vec<u8> },
}

/// A message as a mathematical value.
pub enum MessageView {
    FatalError { message: Seq<char> },
    Hangup,
    NewTopic { name: Seq<char>, message_type: Seq<char> },
    SetTopicSubscribed { name: Seq<char>, subscribed: bool },
    DeletedTopic { name: Seq<char> },
    PublishToTopic { name: Seq<char>, payload: Seq<u8> },
}

impl View for Message {
    type V = MessageView;

    open spec fn view(&self) -> MessageView {
        match self {
            Message::FatalError { message } => MessageView::FatalError { message: message@ },
            Message::Hangup => MessageView::Hangup,
            Message::NewTopic { name, message_type } => MessageView::NewTopic {
                name: name@,
                message_type: message_type@,
            },
            Message::SetTopicSubscribed { name, subscribed } => MessageView::SetTopicSubscribed {
                name: name@,
                subscribed: *subscribed,
            },
            Message::DeletedTopic { name } => MessageView::DeletedTopic { name: name@ },
            Message::PublishToTopic { name, payload } => MessageView::PublishToTopic {
                name: name@,
                payload: payload@,
            },
        }
    }
}

/// The views of a sequence of messages, in the same order.
pub open spec fn message_views(messages: Seq<Message>) -> Seq<MessageView> {
    messages.map_values(|message: Message| message@)
}

/// The bytes of a header: its version.
pub open spec fn header_bytes(header: Header) -> Seq<u8> {
    u16_le(header.version)
}

/// Reads a header from the start of `input`; what follows it is ignored.
pub open spec fn parse_header(input: Seq<u8>) -> Option<Header> {
    if in_reach(input, 0, 2) {
        Some(Header { version: u16_at(input, 0) })
    } else {
        None
    }
}

/// The bytes of a message: its tag, then its fields.
pub open spec fn message_bytes(message: MessageView) -> Seq<u8> {
    match message {
        MessageView::FatalError { message } => u32_le(0) + text_bytes(message),
        MessageView::Hangup => u32_le(1),
        MessageView::NewTopic { name, message_type } => u32_le(2) + text_bytes(name) + text_bytes(
            message_type,
        ),
        MessageView::SetTopicSubscribed { name, subscribed } => u32_le(3) + text_bytes(name)
            + bool_byte(subscribed),
        MessageView::DeletedTopic { name } => u32_le(4) + text_bytes(name),
        MessageView::PublishToTopic { name, payload } => u32_le(5) + text_bytes(name) + blob_bytes(
            payload,
        ),
    }
}

/// Reads the fields of a `NewTopic` message from position `at`.
pub open spec fn parse_new_topic(input: Seq<u8>, at: int) -> Option<MessageView> {
    match parse_text(input, at) {
        Some((name, next)) => match parse_text(input, next) {
            Some((message_type, _)) => Some(MessageView::NewTopic { name, message_type }),
            None => None,
        },
        None => None,
    }
}

/// Reads the fields of a `SetTopicSubscribed` message from position `at`.
pub open spec fn parse_set_topic_subscribed(input: Seq<u8>, at: int) -> Option<MessageView> {
    match parse_text(input, at) {
        Some((name, next)) => match parse_bool(input, next) {
            Some((subscribed, _)) => Some(MessageView::SetTopicSubscribed { name, subscribed }),
            None => None,
        },
        None => None,
    }
}

/// Reads the fields of a `PublishToTopic` message from position `at`.
pub open spec fn parse_publish_to_topic(input: Seq<u8>, at: int) -> Option<MessageView> {
    match parse_text(input, at) {
        Some((name, next)) => match parse_blob(input, next) {
            Some((payload, _)) => Some(MessageView::PublishToTopic { name, payload }),
            None => None,
        },
        None => None,
    }
}

/// Reads a message from the start of `input`: `None` where the tag is
/// missing or unknown, a field is cut short, a text is not UTF-8, or a
/// boolean is neither 0 nor 1. Bytes behind the message are ignored.
pub open spec fn parse_message(input: Seq<u8>) -> Option<MessageView> {
    if !in_reach(input, 0, 4) {
        None
    } else if u32_at(input, 0) == 0 {
        match parse_text(input, 4) {
            Some((message, _)) => Some(MessageView::FatalError { message }),
            None => None,
        }
    } else if u32_at(input, 0) == 1 {
        Some(MessageView::Hangup)
    } else if u32_at(input, 0) == 2 {
        parse_new_topic(input, 4)
    } else if u32_at(input, 0) == 3 {
        parse_set_topic_subscribed(input, 4)
    } else if u32_at(input, 0) == 4 {
        match parse_text(input, 4) {
            Some((name, _)) => Some(MessageView::DeletedTopic { name }),
            None => None,
        }
    } else if u32_at(input, 0) == 5 {
        parse_publish_to_topic(input, 4)
    } else {
        None
    }
}

/// Whether every field of `message` is short enough for its 64-bit length.
/// This holds of every message that exists in memory.
pub open spec fn well_formed(message: MessageView) -> bool {
    match message {
        MessageView::FatalError { message } => encode_utf8(message).len() <= u64::MAX,
        MessageView::Hangup => true,
        MessageView::NewTopic { name, message_type } => encode_utf8(name).len() <= u64::MAX
            && encode_utf8(message_type).len() <= u64::MAX,
        MessageView::SetTopicSubscribed { name, subscribed } => encode_utf8(name).len()
            <= u64::MAX,
        MessageView::DeletedTopic { name } => encode_utf8(name).len() <= u64::MAX,
        MessageView::PublishToTopic { name, payload } => encode_utf8(name).len() <= u64::MAX
            && payload.len() <= u64::MAX,
    }
}

/// A header read back from its own bytes is the same header, whatever
/// follows it.
pub proof fn lemma_header_round_trip(header: Header, after: Seq<u8>)
    ensures
        parse_header(header_bytes(header) + after) == Some(header),
{
    lemma_u16_round_trip(Seq::empty(), header.version, after);
    assert(Seq::<u8>::empty() + u16_le(header.version) + after =~= header_bytes(header) + after);
}

/// A tag read back from the start of its own bytes is the same tag.
proof fn lemma_tag_round_trip(tag: u32, after: Seq<u8>)
    ensures
        in_reach(u32_le(tag) + after, 0, 4),
        u32_at(u32_le(tag) + after, 0) == tag,
{
    lemma_u32_round_trip(Seq::empty(), tag, after);
    assert(Seq::<u8>::empty() + u32_le(tag) + after =~= u32_le(tag) + after);
}

/// Text behind a tag is read back from position 4.
proof fn lemma_tagged_text(tag: u32, text: Seq<char>, after: Seq<u8>)
    requires
        encode_utf8(text).len() <= u64::MAX,
    ensures
        in_reach(u32_le(tag) + text_bytes(text) + after, 0, 4),
        u32_at(u32_le(tag) + text_bytes(text) + after, 0) == tag,
        parse_text(u32_le(tag) + text_bytes(text) + after, 4) == Some(
            (text, 4int + text_bytes(text).len()),
        ),
{
    let input = u32_le(tag) + text_bytes(text) + after;
    assert(input =~= u32_le(tag) + (text_bytes(text) + after));
    lemma_tag_round_trip(tag, text_bytes(text) + after);
    lemma_text_round_trip(u32_le(tag), text, after);
}

proof fn lemma_fatal_error_round_trip(message: Seq<char>, after: Seq<u8>)
    requires
        encode_utf8(message).len() <= u64::MAX,
    ensures
        parse_message(message_bytes(MessageView::FatalError { message }) + after) == Some(
            MessageView::FatalError { message },
        ),
{
    lemma_tagged_text(0, message, after);
}

proof fn lemma_hangup_round_trip(after: Seq<u8>)
    ensures
        parse_message(message_bytes(MessageView::Hangup) + after) == Some(MessageView::Hangup),
{
    lemma_tag_round_trip(1, after);
}

proof fn lemma_new_topic_round_trip(name: Seq<char>, message_type: Seq<char>, after: Seq<u8>)
    requires
        encode_utf8(name).len() <= u64::MAX,
        encode_utf8(message_type).len() <= u64::MAX,
    ensures
        parse_message(message_bytes(MessageView::NewTopic { name, message_type }) + after) == Some(
            MessageView::NewTopic { name, message_type },
        ),
{
    let input = message_bytes(MessageView::NewTopic { name, message_type }) + after;
    assert(input =~= u32_le(2) + text_bytes(name) + (text_bytes(message_type) + after));
    lemma_tagged_text(2, name, text_bytes(message_type) + after);
    assert(input =~= (u32_le(2) + text_bytes(name)) + text_bytes(message_type) + after);
    lemma_text_round_trip(u32_le(2) + text_bytes(name), message_type, after);
}

proof fn lemma_set_topic_subscribed_round_trip(name: Seq<char>, subscribed: bool, after: Seq<u8>)
    requires
        encode_utf8(name).len() <= u64::MAX,
    ensures
        parse_message(message_bytes(MessageView::SetTopicSubscribed { name, subscribed }) + after)
            == Some(MessageView::SetTopicSubscribed { name, subscribed }),
{
    let input = message_bytes(MessageView::SetTopicSubscribed { name, subscribed }) + after;
    assert(input =~= u32_le(3) + text_bytes(name) + (bool_byte(subscribed) + after));
    lemma_tagged_text(3, name, bool_byte(subscribed) + after);
    assert(input =~= (u32_le(3) + text_bytes(name)) + bool_byte(subscribed) + after);
    lemma_bool_round_trip(u32_le(3) + text_bytes(name), subscribed, after);
}

proof fn lemma_deleted_topic_round_trip(name: Seq<char>, after: Seq<u8>)
    requires
        encode_utf8(name).len() <= u64::MAX,
    ensures
        parse_message(message_bytes(MessageView::DeletedTopic { name }) + after) == Some(
            MessageView::DeletedTopic { name },
        ),
{
    lemma_tagged_text(4, name, after);
}

proof fn lemma_publish_to_topic_round_trip(name: Seq<char>, payload: Seq<u8>, after: Seq<u8>)
    requires
        encode_utf8(name).len() <= u64::MAX,
        payload.len() <= u64::MAX,
    ensures
        parse_message(message_bytes(MessageView::PublishToTopic { name, payload }) + after)
            == Some(MessageView::PublishToTopic { name, payload }),
{
    let input = message_bytes(MessageView::PublishToTopic { name, payload }) + after;
    assert(input =~= u32_le(5) + text_bytes(name) + (blob_bytes(payload) + after));
    lemma_tagged_text(5, name, blob_bytes(payload) + after);
    assert(input =~= (u32_le(5) + text_bytes(name)) + blob_bytes(payload) + after);
    lemma_blob_round_trip(u32_le(5) + text_bytes(name), payload, after);
}

/// A message read back from its own bytes is the same message, whatever
/// follows it.
pub proof fn lemma_message_round_trip(message: MessageView, after: Seq<u8>)
    requires
        well_formed(message),
    ensures
        parse_message(message_bytes(message) + after) == Some(message),
{
    match message {
        MessageView::FatalError { message } => lemma_fatal_error_round_trip(message, after),
        MessageView::Hangup => lemma_hangup_round_trip(after),
        MessageView::NewTopic { name, message_type } => lemma_new_topic_round_trip(
            name,
            message_type,
            after,
        ),
        MessageView::SetTopicSubscribed { name, subscribed } => {
            lemma_set_topic_subscribed_round_trip(name, subscribed, after)
        },
        MessageView::DeletedTopic { name } => lemma_deleted_topic_round_trip(name, after),
        MessageView::PublishToTopic { name, payload } => lemma_publish_to_topic_round_trip(
            name,
            payload,
            after,
        ),
    }
}

impl Header {
    /// Appends the bytes of this header to `buffer`.
    pub fn encode(&self, buffer: &mut Vec<u8>)
        ensures
            final(buffer)@ == old(buffer)@ + header_bytes(*self),
    {
        put_u16(buffer, self.version);
    }

    /// Reads a header from the start of `input`.
    pub fn decode(input: &[u8]) -> (header: Option<Header>)
        ensures
            header == parse_header(input@),
    {
        match take_u16(input, 0) {
            Some((version, _)) => Some(Header { version }),
            None => None,
        }
    }
}

impl Message {
    /// Appends the bytes of this message to `buffer`.
    pub fn encode(&self, buffer: &mut Vec<u8>)
        ensures
            final(buffer)@ == old(buffer)@ + message_bytes(self@),
            well_formed(self@),
    {
        match self {
            Message::FatalError { message } => {
                put_u32(buffer, 0);
                put_text(buffer, message.as_str());
                assert(buffer@ =~= old(buffer)@ + message_bytes(self@));
            },
            Message::Hangup => {
                put_u32(buffer, 1);
            },
            Message::NewTopic { name, message_type } => {
                put_u32(buffer, 2);
                put_text(buffer, name.as_str());
                put_text(buffer, message_type.as_str());
                assert(buffer@ =~= old(buffer)@ + message_bytes(self@));
            },
            Message::SetTopicSubscribed { name, subscribed } => {
                put_u32(buffer, 3);
                put_text(buffer, name.as_str());
                put_bool(buffer, *subscribed);
                assert(buffer@ =~= old(buffer)@ + message_bytes(self@));
            },
            Message::DeletedTopic { name } => {
                put_u32(buffer, 4);
                put_text(buffer, name.as_str());
                assert(buffer@ =~= old(buffer)@ + message_bytes(self@));
            },
            Message::PublishToTopic { name, payload } => {
                put_u32(buffer, 5);
                put_text(buffer, name.as_str());
                put_blob(buffer, payload.as_slice());
                assert(buffer@ =~= old(buffer)@ + message_bytes(self@));
            },
        }
    }

    /// Reads a message from the start of `input`.
    pub fn decode(input: &[u8]) -> (message: Option<Message>)
        ensures
            match parse_message(input@) {
                Some(parsed) => message matches Some(got) && got@ == parsed,
                None => message is None,
            },
    {
        let tag = match take_u32(input, 0) {
            Some((tag, _)) => tag,
            None => { return None; },
        };
        if tag == 0 {
            match take_text(input, 4) {
                Some((message, _)) => Some(Message::FatalError { message }),
                None => None,
            }
        } else if tag == 1 {
            Some(Message::Hangup)
        } else if tag == 2 {
            match take_text(input, 4) {
                Some((name, next)) => match take_text(input, next) {
                    Some((message_type, _)) => Some(Message::NewTopic { name, message_type }),
                    None => None,
                },
                None => None,
            }
        } else if tag == 3 {
            match take_text(input, 4) {
                Some((name, next)) => match take_bool(input, next) {
                    Some((subscribed, _)) => Some(Message::SetTopicSubscribed { name, subscribed }),
                    None => None,
                },
                None => None,
            }
        } else if tag == 4 {
            match take_text(input, 4) {
                Some((name, _)) => Some(Message::DeletedTopic { name }),
                None => None,
            }
        } else if tag == 5 {
            match take_text(input, 4) {
                Some((name, next)) => match take_blob(input, next) {
                    Some((payload, _)) => Some(Message::PublishToTopic { name, payload }),
                    None => None,
                },
                None => None,
            }
        } else {
            None
        }
    }
}

} // verus!

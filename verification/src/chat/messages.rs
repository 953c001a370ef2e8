//! Chat messages and their wire representation.

use vstd::prelude::*;

use crate::error::{CoreError, CoreResult};
use crate::identity::id::ContactId;
use crate::time::Timestamp;

verus! {

/// `rmp_serde::decode::Error`, carried from a wrapper to the function that
/// maps it; nothing is known of what it holds.
#[verifier::external_type_specification]
#[verifier::external_body]
pub struct ExDecodeError(rmp_serde::decode::Error);

/// Who wrote a message and when it was received.
#[derive(Debug, Clone, Copy, PartialEq, Eq)]
pub struct MessageMeta {
    pub author_id: ContactId,
    pub time_received: Timestamp,
}

/// One chat message.
#[derive(Debug, PartialEq, Eq)]
pub struct Message {
    pub text: String,
    meta: MessageMeta,
}

/// What a message holds.
pub struct MessageView {
    pub text: Seq<char>,
    pub author_id: ContactId,
    pub time_received: Timestamp,
}

impl View for Message {
    type V = MessageView;

    closed spec fn view(&self) -> MessageView {
        MessageView {
            text: self.text@,
            author_id: self.meta.author_id,
            time_received: self.meta.time_received,
        }
    }
}

/// The wire representation of a message.
pub uninterp spec fn message_encoding(message: MessageView) -> Seq<u8>;

/// The message that bytes represent, if they represent one.
pub uninterp spec fn message_decoding(bytes: Seq<u8>) -> Option<MessageView>;

/// `rmp_serde::to_vec` on the text, the author's key and the time of
/// receipt, as one tuple of plain values. The bytes depend on those values
/// alone. What is claimed is what an `Ok` holds.
#[verifier::external_body]
fn msgpack_encode_message(message: &Message, author: &[u8; 32]) -> (res: Result<
    Vec<u8>,
    rmp_serde::encode::Error,
>)
    requires
        author@ == message@.author_id.bytes(),
    ensures
        res matches Ok(bytes) ==> bytes@ == message_encoding(message@),
{
    let time = (message.meta.time_received.secs, message.meta.time_received.nanos);
    rmp_serde::to_vec(&(&message.text, author, time))
}

/// `rmp_serde::from_slice` for the tuple that `msgpack_encode_message`
/// writes: the text, the author's key, the seconds and the nanoseconds.
/// Whether bytes decode, and to what, depends on the bytes alone.
#[verifier::external_body]
fn msgpack_decode_message(bytes: &[u8]) -> (res: Result<
    (String, [u8; 32], (i64, u32)),
    rmp_serde::decode::Error,
>)
    ensures
        match res {
            Ok((text, author, time)) => message_decoding(bytes@) matches Some(message)
                && message.text == text@ && message.author_id.bytes() == author@
                && message.time_received == (Timestamp { secs: time.0, nanos: time.1 }),
            Err(_) => message_decoding(bytes@) is None,
        },
{
    rmp_serde::from_slice(bytes)
}

impl Clone for Message {
    fn clone(&self) -> (copy: Message)
        ensures
            copy@ == self@,
    {
        Message { text: self.text.clone(), meta: self.meta }
    }
}

impl Message {
    pub fn new(text: String, author_id: ContactId, time_received: Timestamp) -> (message: Message)
        ensures
            message@ == (MessageView { text: text@, author_id, time_received }),
    {
        Message { text, meta: MessageMeta { author_id, time_received } }
    }

    /// Who wrote the message and when it was received.
    pub fn meta(&self) -> (meta: &MessageMeta)
        ensures
            meta.author_id == self@.author_id,
            meta.time_received == self@.time_received,
    {
        &self.meta
    }

    /// The bytes that carry this message to a peer.
    pub fn to_wire(&self) -> (res: CoreResult<Vec<u8>>)
        ensures
            match res {
                Ok(bytes) => bytes@ == message_encoding(self@),
                Err(e) => e == CoreError::MessagePackEncode,
            },
    {
        match msgpack_encode_message(self, self.meta.author_id.as_bytes()) {
            Ok(bytes) => Ok(bytes),
            Err(_) => Err(CoreError::MessagePackEncode),
        }
    }

    /// The bytes that carry this message to a peer, handed out only if they
    /// are read back as this message.
    pub fn to_wire_checked(&self) -> (res: CoreResult<Vec<u8>>)
        ensures
            match res {
                Ok(bytes) => bytes@ == message_encoding(self@) && message_decoding(bytes@) == Some(
                    self@,
                ),
                Err(e) => e == CoreError::MessagePackEncode || (e == CoreError::MessagePackDecode
                    && message_decoding(message_encoding(self@)) != Some(self@)),
            },
    {
        let bytes = match self.to_wire() {
            Ok(bytes) => bytes,
            Err(e) => {
                return Err(e);
            },
        };
        match Self::from_wire(bytes.as_slice()) {
            Ok(back) => {
                if back.text == self.text && back.meta.author_id == self.meta.author_id
                    && back.meta.time_received == self.meta.time_received {
                    Ok(bytes)
                } else {
                    Err(CoreError::MessagePackDecode)
                }
            },
            Err(e) => Err(e),
        }
    }

    /// The message that a peer's bytes carry.
    pub fn from_wire(bytes: &[u8]) -> (res: CoreResult<Message>)
        ensures
            match res {
                Ok(message) => message_decoding(bytes@) == Some(message@),
                Err(e) => message_decoding(bytes@) is None && e == CoreError::MessagePackDecode,
            },
    {
        match msgpack_decode_message(bytes) {
            Ok((text, author, time)) => {
                let author_id = ContactId::from_key(author);
                proof {
                    ContactId::lemma_bytes(author_id, message_decoding(bytes@)->Some_0.author_id);
                }
                Ok(Message::new(text, author_id, Timestamp::new(time.0, time.1)))
            },
            Err(_) => Err(CoreError::MessagePackDecode),
        }
    }
}

} // verus!

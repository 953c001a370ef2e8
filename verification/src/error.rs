//! Error values of the core and of the client actor.

use vstd::prelude::*;
use vstd::string::StringExecFns;

use crate::net::address::SocketAddress;
use crate::text::{decimal, push_decimal};

verus! {

/// What can go wrong in the core: transport, protocol, cryptographic and
/// domain failures.
#[derive(Debug, Clone, PartialEq, Eq)]
pub enum CoreError {
    /// An I/O failure of the transport, with the text the system gave.
    IO(String),
    /// A command or event channel was closed while receiving.
    ChannelRecv,
    /// A network event could not be sent over its channel.
    ChannelSendNetEvent,
    /// A network command could not be sent over its channel.
    ChannelSendNetCmd,
    /// The encrypted handshake or transport failed.
    Noise(String),
    /// The canonical encoding of a value could not be produced.
    MessagePackEncode,
    /// Received bytes were no valid encoding of the expected value.
    MessagePackDecode,
    /// A signature did not verify, or a key was malformed.
    SignatureEd25519,
    /// An operation that needs the local identity ran before one was set.
    NoUserIdentity,
    /// A payload or frame exceeds the maximum; holds the offending length.
    FrameTooLarge(usize),
    /// A frame length does not fit the two-byte prefix.
    FrameLengthOverU16(usize),
    /// A frame announces fewer bytes than a version header takes.
    FrameTooShort(usize),
    /// A buffer does not hold exactly the frame it announces; holds the
    /// buffer's length.
    FrameIncomplete(usize),
    /// The peer presented no static key during the handshake.
    NoisePeerHasNoPublicKey(SocketAddress),
    /// The peer's static key has the wrong shape.
    PeerKeyIsMalformed(SocketAddress),
    /// The peer's identity document does not authenticate the peer.
    PeerKeyIsInvalid { remote: SocketAddress },
    /// A username is shorter than 1 or longer than 40 characters.
    InvalidUsername,
    /// A frame header names another protocol; holds the name received.
    BadProtocolName([u8; 12]),
    /// A listener was requested while one is active.
    ListenerAlreadyActive,
    /// No connection exists for the given remote address.
    NotConnected(SocketAddress),
    /// No sound signing key could be generated.
    KeyGeneration,
}

pub type CoreResult<T> = Result<T, CoreError>;

impl CoreError {
    /// The message of an error.
    pub open spec fn text(&self) -> Seq<char> {
        match self {
            CoreError::IO(cause) => "standard io error: "@ + cause@,
            CoreError::ChannelRecv => "Could not load the application store"@,
            CoreError::ChannelSendNetEvent => {
                "Could send a network event to the over the local async channel"@
            },
            CoreError::ChannelSendNetCmd => {
                "Could send a network command to the over the local async channel"@
            },
            CoreError::Noise(cause) => "Noise protocol error: "@ + cause@,
            CoreError::MessagePackEncode => "MessagePack encode error"@,
            CoreError::MessagePackDecode => "MessagePack decode error"@,
            CoreError::SignatureEd25519 => "Signature Error with Ed25519"@,
            CoreError::NoUserIdentity => "No user identity currently exists"@,
            CoreError::FrameTooLarge(length) => {
                "Tried to create a frame for the transport layer that is too large ("@
                    + decimal(*length as nat)
                    + " >= MAX_FRAME_SIZE)"@
            },
            CoreError::FrameLengthOverU16(length) => {
                "Frame length is over 2 byte long: "@
                    + decimal(*length as nat)
            },
            CoreError::FrameTooShort(length) => {
                "Frame length is shorter than a version header: "@
                    + decimal(*length as nat)
            },
            CoreError::FrameIncomplete(length) => {
                "Buffer does not hold exactly one frame: "@
                    + decimal(*length as nat)
            },
            CoreError::NoisePeerHasNoPublicKey(remote) => {
                "Could not get the public key of peer ("@
                    + remote.text()
                    + ") during the connection initialization"@
            },
            CoreError::PeerKeyIsMalformed(remote) => {
                "Public key of peer ("@
                    + remote.text()
                    + ") is malformed"@
            },
            CoreError::PeerKeyIsInvalid { remote } => {
                "Public key of peer ("@
                    + remote.text()
                    + ") is invalid"@
            },
            CoreError::InvalidUsername => {
                "The given username does not have 1 to 40 characters"@
            },
            CoreError::BadProtocolName(_) => "Frame with a bad protocol name was received"@,
            CoreError::ListenerAlreadyActive => "A listener is already active"@,
            CoreError::NotConnected(remote) => "No connection exists to "@ + remote.text(),
            CoreError::KeyGeneration => "No sound signing key could be generated"@,
        }
    }

    /// The message of this error.
    pub fn to_text(&self) -> (text: String)
        ensures
            text@ == self.text(),
    {
        let mut text = String::new();
        match self {
            CoreError::IO(cause) => {
                text.append("standard io error: ");
                text.append(cause.as_str());
            },
            CoreError::ChannelRecv => {
                text.append("Could not load the application store");
            },
            CoreError::ChannelSendNetEvent => {
                text.append("Could send a network event to the over the local async channel");
            },
            CoreError::ChannelSendNetCmd => {
                text.append("Could send a network command to the over the local async channel");
            },
            CoreError::Noise(cause) => {
                text.append("Noise protocol error: ");
                text.append(cause.as_str());
            },
            CoreError::MessagePackEncode => {
                text.append("MessagePack encode error");
            },
            CoreError::MessagePackDecode => {
                text.append("MessagePack decode error");
            },
            CoreError::SignatureEd25519 => {
                text.append("Signature Error with Ed25519");
            },
            CoreError::NoUserIdentity => {
                text.append("No user identity currently exists");
            },
            CoreError::FrameTooLarge(length) => {
                text.append("Tried to create a frame for the transport layer that is too large (");
                push_decimal(&mut text, *length as u64);
                text.append(" >= MAX_FRAME_SIZE)");
            },
            CoreError::FrameLengthOverU16(length) => {
                text.append("Frame length is over 2 byte long: ");
                push_decimal(&mut text, *length as u64);
            },
            CoreError::FrameTooShort(length) => {
                text.append("Frame length is shorter than a version header: ");
                push_decimal(&mut text, *length as u64);
            },
            CoreError::FrameIncomplete(length) => {
                text.append("Buffer does not hold exactly one frame: ");
                push_decimal(&mut text, *length as u64);
            },
            CoreError::NoisePeerHasNoPublicKey(remote) => {
                text.append("Could not get the public key of peer (");
                remote.write_to(&mut text);
                text.append(") during the connection initialization");
            },
            CoreError::PeerKeyIsMalformed(remote) => {
                text.append("Public key of peer (");
                remote.write_to(&mut text);
                text.append(") is malformed");
            },
            CoreError::PeerKeyIsInvalid { remote } => {
                text.append("Public key of peer (");
                remote.write_to(&mut text);
                text.append(") is invalid");
            },
            CoreError::InvalidUsername => {
                text.append("The given username does not have 1 to 40 characters");
            },
            CoreError::BadProtocolName(_) => {
                text.append("Frame with a bad protocol name was received");
            },
            CoreError::ListenerAlreadyActive => {
                text.append("A listener is already active");
            },
            CoreError::NotConnected(remote) => {
                text.append("No connection exists to ");
                remote.write_to(&mut text);
            },
            CoreError::KeyGeneration => {
                text.append("No sound signing key could be generated");
            },
        }
        assert(text@ =~= self.text());
        text
    }
}

} // verus!

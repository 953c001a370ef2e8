use sremp::chat::messages::Message;
use sremp::chat::Chat;
use sremp::client::chats::Chats;
use sremp::client::error::ClientError;
use sremp::client::events::latest_text_of;
use sremp::client::known_identities::KnownIdentities;
use sremp::client::listen::ListenerStatus;
use sremp::client::{UiCommand, UiEvent};
use sremp::domain::{NetworkCommand, NetworkEvent};
use sremp::error::CoreError;
use sremp::identity::trust::Trust;
use sremp::identity::{ContactId, UserIdentity};
use sremp::net::address::SocketAddress;
use sremp::text::{hex_digit_of, push_decimal, push_hex4, push_signed_decimal};
use sremp::time::Timestamp;
use sremp::version;

const ALICE: &str = "8A88E3DD7409F195FD52DB2D3CBA5D72CA6709BF1D94121BF3748801B40F6F5C";

fn alice() -> UserIdentity {
    UserIdentity::from_keys("alice", [1u8; 32], [2u8; 32], Timestamp::new(1, 0)).unwrap()
}

fn v4() -> SocketAddress {
    SocketAddress::V4 { ip: 0xc0a8_0001, port: 8080 }
}

fn id() -> ContactId {
    ContactId::from_key([0xab; 32])
}

fn id_text() -> String {
    "AB".repeat(32)
}

#[test]
fn version_names_the_library() {
    assert_eq!(version(), "sremp v0.1.0");
}

#[test]
fn decimal_digits() {
    let mut text = String::from("n=");
    push_decimal(&mut text, 0);
    text.push(',');
    push_decimal(&mut text, 9);
    text.push(',');
    push_decimal(&mut text, 10);
    text.push(',');
    push_decimal(&mut text, 65535);
    text.push(',');
    push_decimal(&mut text, u64::MAX);
    assert_eq!(text, "n=0,9,10,65535,18446744073709551615");
}

#[test]
fn signed_decimal_digits() {
    let mut text = String::new();
    push_signed_decimal(&mut text, -1);
    text.push(',');
    push_signed_decimal(&mut text, 0);
    text.push(',');
    push_signed_decimal(&mut text, i64::MIN);
    text.push(',');
    push_signed_decimal(&mut text, i64::MAX);
    assert_eq!(text, "-1,0,-9223372036854775808,9223372036854775807");
}

#[test]
fn hexadecimal_digits() {
    let digits: String = (0u8..16).map(hex_digit_of).collect();
    assert_eq!(digits, "0123456789ABCDEF");
    let mut text = String::new();
    push_hex4(&mut text, 0);
    push_hex4(&mut text, 0x1a2b);
    push_hex4(&mut text, 0xffff);
    assert_eq!(text, "00001A2BFFFF");
}

#[test]
fn socket_address_text() {
    assert_eq!(v4().to_text(), "192.168.0.1:8080");
    assert_eq!(SocketAddress::V4 { ip: 0, port: 0 }.to_text(), "0.0.0.0:0");
    assert_eq!(SocketAddress::V4 { ip: u32::MAX, port: 65535 }.to_text(), "255.255.255.255:65535");
    assert_eq!(
        SocketAddress::V6 { ip: 1, port: 443, flowinfo: 0, scope_id: 0 }.to_text(),
        "[0000:0000:0000:0000:0000:0000:0000:0001]:443"
    );
    assert_eq!(
        SocketAddress::V6 {
            ip: 0x2001_0db8_0000_0000_0000_ff00_0042_8329,
            port: 1,
            flowinfo: 7,
            scope_id: 9
        }
        .to_text(),
        "[2001:0DB8:0000:0000:0000:FF00:0042:8329]:1"
    );
    assert_eq!(v4().port(), 8080);
    assert!(v4().is_ipv4());
    assert!(!SocketAddress::V6 { ip: 1, port: 443, flowinfo: 0, scope_id: 0 }.is_ipv4());
}

#[test]
fn timestamp_text_and_order() {
    assert_eq!(Timestamp::new(12, 345).to_text(), "12.345");
    assert_eq!(Timestamp::new(-5, 0).to_text(), "-5.0");
    assert!(Timestamp::new(1, 5).is_at_or_before(&Timestamp::new(1, 5)));
    assert!(Timestamp::new(1, 5).is_at_or_before(&Timestamp::new(1, 6)));
    assert!(Timestamp::new(1, 999).is_at_or_before(&Timestamp::new(2, 0)));
    assert!(!Timestamp::new(2, 0).is_at_or_before(&Timestamp::new(1, 999)));
    assert!(Timestamp::new(-1, 0).is_at_or_before(&Timestamp::new(0, 0)));
    assert!(Timestamp::new(1, 5) < Timestamp::new(1, 6));
}

#[test]
fn alice_has_the_expected_identifier() {
    assert_eq!(alice().identity.id().to_text(), ALICE);
}

#[test]
fn network_command_text() {
    assert_eq!(NetworkCommand::Connect(v4()).to_text(), "Connect to 192.168.0.1:8080");
    assert_eq!(NetworkCommand::Disconnect(v4()).to_text(), "Disconnect from 192.168.0.1:8080");
    assert_eq!(
        NetworkCommand::SendMessage(v4(), id(), vec![1, 2]).to_text(),
        format!("Send Message to 192.168.0.1:8080: {}", id_text())
    );
    assert_eq!(
        NetworkCommand::StartListener(v4()).to_text(),
        "Start listening for incoming connection on 192.168.0.1:8080"
    );
    assert_eq!(NetworkCommand::StopListener.to_text(), "Stop listening for incoming connections");
    assert_eq!(
        NetworkCommand::SetIdentity(Some(alice())).to_text(),
        format!("Set working copy of user identity to {} (alice)", ALICE)
    );
    assert_eq!(
        NetworkCommand::SetIdentity(None).to_text(),
        "Set working copy of user identity to <None>"
    );
}

#[test]
fn network_event_text() {
    assert_eq!(
        NetworkEvent::ConnectionEstablished(v4(), alice().identity).to_text(),
        format!("Connection established with 192.168.0.1:8080 ({})", ALICE)
    );
    assert_eq!(
        NetworkEvent::ConnectionLost(v4(), id()).to_text(),
        format!("Peer 192.168.0.1:8080 ({}) has disconnected", id_text())
    );
    assert_eq!(
        NetworkEvent::IncomingMessage(v4(), id(), vec![]).to_text(),
        format!("Message received from 192.168.0.1:8080 ({})", id_text())
    );
    assert_eq!(
        NetworkEvent::MessageSent(v4(), id(), vec![]).to_text(),
        format!("Message sent to 192.168.0.1:8080 ({})", id_text())
    );
    assert_eq!(
        NetworkEvent::ConnectionFailed(v4(), "why".to_string()).to_text(),
        "Connection to 192.168.0.1:8080 attempt was aborted: why"
    );
    assert_eq!(
        NetworkEvent::ListenerStarted(v4()).to_text(),
        "Listener for incoming connection was started on 192.168.0.1:8080"
    );
    assert_eq!(
        NetworkEvent::ListenerStopped.to_text(),
        "Listener for incoming connection was stopped"
    );
    assert_eq!(
        NetworkEvent::ConnectionReset(v4()).to_text(),
        "Bad connection awards from 192.168.0.1:8080 was aborted"
    );
    assert_eq!(
        NetworkEvent::ListenerFailed(CoreError::NoUserIdentity).to_text(),
        "Listener failed: No user identity currently exists"
    );
}

#[test]
fn ui_command_text() {
    let message = Message::new("secret".to_string(), id(), Timestamp::new(1, 0));
    assert_eq!(UiCommand::Connect(v4()).to_text(), "Connect to 192.168.0.1:8080");
    assert_eq!(UiCommand::Disconnect(v4()).to_text(), "Disconnect from 192.168.0.1:8080");
    assert_eq!(UiCommand::StartChat(id()).to_text(), format!("Create new chat with {}", id_text()));
    assert_eq!(UiCommand::SelectChat(id()).to_text(), format!("Select chat with {}", id_text()));
    assert_eq!(
        UiCommand::SendMessage(id(), message).to_text(),
        format!("Send Message to {}", id_text())
    );
    assert_eq!(
        UiCommand::TrustContact(id(), Trust::Rejected).to_text(),
        format!("Set trust of {} to Rejected", id_text())
    );
    assert_eq!(
        UiCommand::StartListener(v4()).to_text(),
        "Start listening for incoming connection on 192.168.0.1:8080"
    );
    assert_eq!(UiCommand::StopListener.to_text(), "Stop listening for incoming connections");
    assert_eq!(
        UiCommand::SetIdentity(Some(alice())).to_text(),
        format!("Set working copy of user identity to {} (alice)", ALICE)
    );
    assert_eq!(
        UiCommand::SetIdentity(None).to_text(),
        "Set working copy of user identity to <None>"
    );
}

#[test]
fn ui_event_text() {
    let message = Message::new("secret".to_string(), id(), Timestamp::new(77, 5));
    assert_eq!(
        UiEvent::ConnectionEstablished(v4(), id()).to_text(),
        format!("Connection established with 192.168.0.1:8080 ({})", id_text())
    );
    assert_eq!(
        UiEvent::ConnectionLost(v4(), id()).to_text(),
        format!("Peer 192.168.0.1:8080 ({}) has disconnected", id_text())
    );
    assert_eq!(
        UiEvent::IncomingMessage(v4(), id(), message.clone()).to_text(),
        format!("Message received from 192.168.0.1:8080 ({})", id_text())
    );
    assert_eq!(
        UiEvent::MessageSent(v4(), id(), message.clone()).to_text(),
        format!("Message sent to 192.168.0.1:8080 ({})", id_text())
    );
    assert_eq!(
        UiEvent::ConnectionFailed(v4(), "why".to_string()).to_text(),
        "Connection to 192.168.0.1:8080 attempt was aborted: why"
    );
    assert_eq!(
        UiEvent::ListenerStarted(v4()).to_text(),
        "Listener for incoming connection was started on 192.168.0.1:8080"
    );
    assert_eq!(UiEvent::ListenerStopped.to_text(), "Listener for incoming connection was stopped");
    assert_eq!(
        UiEvent::ConnectionReset(v4()).to_text(),
        "Bad connection awards from 192.168.0.1:8080 was aborted"
    );
    assert_eq!(
        UiEvent::IdentitySet(Some(alice())).to_text(),
        format!("working copy of user identity was set to {} (alice)", ALICE)
    );
    assert_eq!(
        UiEvent::IdentitySet(None).to_text(),
        "working copy of user identity was set to nothing"
    );
    let mut chat = Chat::new();
    assert_eq!(UiEvent::ChatLoaded(chat.clone()).to_text(), "Chat was loaded (last msg at None)");
    assert_eq!(latest_text_of(&chat), "None");
    chat.add_message(message.clone());
    assert_eq!(
        UiEvent::ChatLoaded(chat.clone()).to_text(),
        "Chat was loaded (last msg at Some(77.5))"
    );
    let mut chats = Chats::new();
    chats.add_message(id(), message);
    chats.create_or_update(ContactId::from_key([1u8; 32]));
    assert_eq!(UiEvent::LoadedChats(chats).to_text(), "Loaded 2 chats");
    let mut known = KnownIdentities::new();
    known.create_or_update_at(&alice().identity, Timestamp::new(1, 0));
    assert_eq!(UiEvent::SetKnownIdentities(known).to_text(), "Loaded 1 known identities");
    assert_eq!(
        UiEvent::ChatNotFound(id()).to_text(),
        format!("Chat with id {} does not exist", id_text())
    );
}

#[test]
fn core_error_text() {
    assert_eq!(CoreError::IO("broken pipe".to_string()).to_text(), "standard io error: broken pipe");
    assert_eq!(CoreError::ChannelRecv.to_text(), "Could not load the application store");
    assert_eq!(
        CoreError::ChannelSendNetEvent.to_text(),
        "Could send a network event to the over the local async channel"
    );
    assert_eq!(
        CoreError::ChannelSendNetCmd.to_text(),
        "Could send a network command to the over the local async channel"
    );
    assert_eq!(CoreError::Noise("decrypt".to_string()).to_text(), "Noise protocol error: decrypt");
    assert_eq!(CoreError::MessagePackEncode.to_text(), "MessagePack encode error");
    assert_eq!(CoreError::MessagePackDecode.to_text(), "MessagePack decode error");
    assert_eq!(CoreError::SignatureEd25519.to_text(), "Signature Error with Ed25519");
    assert_eq!(CoreError::NoUserIdentity.to_text(), "No user identity currently exists");
    assert_eq!(
        CoreError::FrameTooLarge(65522).to_text(),
        "Tried to create a frame for the transport layer that is too large (65522 >= MAX_FRAME_SIZE)"
    );
    assert_eq!(
        CoreError::FrameLengthOverU16(70000).to_text(),
        "Frame length is over 2 byte long: 70000"
    );
    assert_eq!(
        CoreError::FrameTooShort(3).to_text(),
        "Frame length is shorter than a version header: 3"
    );
    assert_eq!(
        CoreError::FrameIncomplete(1).to_text(),
        "Buffer does not hold exactly one frame: 1"
    );
    assert_eq!(
        CoreError::NoisePeerHasNoPublicKey(v4()).to_text(),
        "Could not get the public key of peer (192.168.0.1:8080) during the connection initialization"
    );
    assert_eq!(
        CoreError::PeerKeyIsMalformed(v4()).to_text(),
        "Public key of peer (192.168.0.1:8080) is malformed"
    );
    assert_eq!(
        CoreError::PeerKeyIsInvalid { remote: v4() }.to_text(),
        "Public key of peer (192.168.0.1:8080) is invalid"
    );
    assert_eq!(
        CoreError::InvalidUsername.to_text(),
        "The given username does not have 1 to 40 characters"
    );
    assert_eq!(
        CoreError::BadProtocolName(*b"HTTP/1.1 200").to_text(),
        "Frame with a bad protocol name was received"
    );
    assert_eq!(CoreError::ListenerAlreadyActive.to_text(), "A listener is already active");
    assert_eq!(CoreError::NotConnected(v4()).to_text(), "No connection exists to 192.168.0.1:8080");
    assert_eq!(CoreError::KeyGeneration.to_text(), "No sound signing key could be generated");
}

#[test]
fn client_error_text() {
    assert_eq!(
        ClientError::ChannelSendUiEvent.to_text(),
        "Could send a ui event to the over the local async channel"
    );
    assert_eq!(
        ClientError::ChannelSendUiCmd.to_text(),
        "Could send a ui command to the over the local async channel"
    );
    assert_eq!(
        ClientError::CoreError(CoreError::NoUserIdentity).to_text(),
        "No user identity currently exists"
    );
    assert_eq!(ClientError::from_core(CoreError::ChannelRecv), ClientError::CoreError(CoreError::ChannelRecv));
    assert_eq!(
        ClientError::NoConnection(id()).to_text(),
        format!("No connection exists to {}. Can't send message to them!", id_text())
    );
}

#[test]
fn listener_status_text() {
    assert_eq!(ListenerStatus::Stopped.to_text(), "Listener is not active");
    assert_eq!(ListenerStatus::Starting.to_text(), "Listener is starting");
    assert_eq!(ListenerStatus::Active(v4()).to_text(), "Listener is listening on 192.168.0.1:8080");
    assert_eq!(
        ListenerStatus::Error(ClientError::CoreError(CoreError::ChannelRecv)).to_text(),
        "Listener failed: Could not load the application store"
    );
}

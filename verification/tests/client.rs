use sremp::chat::messages::Message;
use sremp::chat::Chat;
use sremp::client::chats::Chats;
use sremp::client::error::ClientError;
use sremp::client::known_identities::KnownIdentities;
use sremp::client::listen::ListenerStatus;
use sremp::client::{ClientAction, ClientDomain, UiCommand, UiEvent};
use sremp::domain::{NetworkCommand, NetworkEvent};
use sremp::error::CoreError;
use sremp::identity::trust::Trust;
use sremp::identity::{ContactId, UserIdentity};
use sremp::net::address::SocketAddress;
use sremp::time::Timestamp;

fn user(name: &str, seed: u8) -> UserIdentity {
    UserIdentity::from_keys(name, [seed; 32], [seed.wrapping_add(100); 32], Timestamp::new(1, 0))
        .unwrap()
}

fn address(last: u32, port: u16) -> SocketAddress {
    SocketAddress::V4 { ip: 0x7f00_0000 + last, port }
}

fn now() -> Timestamp {
    Timestamp::new(1000, 0)
}

#[test]
fn client_domain_starts_empty() {
    let domain = ClientDomain::new();
    assert_eq!(domain.known_identities().len(), 0);
    assert_eq!(domain.chats().len(), 0);
    assert!(domain.user_identity().is_none());
    assert_eq!(domain.open_connection(&ContactId::from_key([1u8; 32])), None);
}

#[test]
fn transport_commands_are_forwarded_verbatim() {
    let mut domain = ClientDomain::new();
    let addr = address(1, 9000);
    assert!(
        domain.process_ui_command_at(UiCommand::StartListener(addr), now())
            == Ok(vec![ClientAction::Net(NetworkCommand::StartListener(addr))])
    );
    assert!(
        domain.process_ui_command_at(UiCommand::StopListener, now())
            == Ok(vec![ClientAction::Net(NetworkCommand::StopListener)])
    );
    assert!(
        domain.process_ui_command_at(UiCommand::Connect(addr), now())
            == Ok(vec![ClientAction::Net(NetworkCommand::Connect(addr))])
    );
    assert!(
        domain.process_ui_command(UiCommand::Disconnect(addr))
            == Ok(vec![ClientAction::Net(NetworkCommand::Disconnect(addr))])
    );
    assert!(domain.listener_start(addr) == Ok(vec![ClientAction::Net(NetworkCommand::StartListener(addr))]));
    assert!(domain.listener_stop() == Ok(vec![ClientAction::Net(NetworkCommand::StopListener)]));
    assert!(domain.connect(addr) == Ok(vec![ClientAction::Net(NetworkCommand::Connect(addr))]));
    assert!(domain.disconnect(addr) == Ok(vec![ClientAction::Net(NetworkCommand::Disconnect(addr))]));
}

#[test]
fn set_identity_registers_a_self_contact_and_tells_both_sides() {
    let mut domain = ClientDomain::new();
    let alice = user("alice", 1);
    let actions =
        domain.process_ui_command_at(UiCommand::SetIdentity(Some(alice.clone())), now()).unwrap();
    let mut known = KnownIdentities::new();
    known.create_or_update_at(&alice.identity, now());
    assert!(
        actions
            == vec![
                ClientAction::Ui(UiEvent::SetKnownIdentities(known.clone())),
                ClientAction::Net(NetworkCommand::SetIdentity(Some(alice.clone()))),
                ClientAction::Ui(UiEvent::IdentitySet(Some(alice.clone()))),
            ]
    );
    assert!(domain.user_identity() == Some(&alice));
    assert_eq!(domain.known_identities(), &known);
    let own = domain.known_identities().get(&alice.identity.id()).unwrap();
    assert_eq!(own.trust, Trust::Unknown);
    assert_eq!(own.first_seen, now());

    let actions = domain.process_ui_command_at(UiCommand::SetIdentity(None), now()).unwrap();
    assert!(
        actions
            == vec![
                ClientAction::Net(NetworkCommand::SetIdentity(None)),
                ClientAction::Ui(UiEvent::IdentitySet(None)),
            ]
    );
    assert!(domain.user_identity().is_none());
    assert_eq!(domain.known_identities().len(), 1);
}

#[test]
fn established_connection_is_observed_and_announced() {
    let mut domain = ClientDomain::new();
    let bob = user("bob", 2).identity;
    let remote = address(1, 9000);
    let actions = domain
        .process_net_event_at(NetworkEvent::ConnectionEstablished(remote, bob.clone()), now())
        .unwrap();
    let mut known = KnownIdentities::new();
    known.create_or_update_at(&bob, now());
    assert!(
        actions
            == vec![
                ClientAction::Ui(UiEvent::SetKnownIdentities(known)),
                ClientAction::Ui(UiEvent::ConnectionEstablished(remote, bob.id())),
            ]
    );
    let contact = domain.known_identities().get(&bob.id()).unwrap();
    assert_eq!(contact.trust, Trust::Unknown);
    assert_eq!(contact.first_seen, now());
    assert_eq!(domain.open_connection(&bob.id()), Some(remote));
}

#[test]
fn trust_is_set_only_by_the_operator() {
    let mut domain = ClientDomain::new();
    let bob = user("bob", 2).identity;
    let remote = address(1, 9000);
    domain.process_net_event_at(NetworkEvent::ConnectionEstablished(remote, bob.clone()), now()).unwrap();
    let actions =
        domain.process_ui_command_at(UiCommand::TrustContact(bob.id(), Trust::Trusted), now()).unwrap();
    assert!(actions.is_empty());
    assert_eq!(domain.known_identities().get(&bob.id()).unwrap().trust, Trust::Trusted);
    domain
        .process_net_event_at(
            NetworkEvent::ConnectionEstablished(remote, bob.clone()),
            Timestamp::new(2000, 0),
        )
        .unwrap();
    let contact = domain.known_identities().get(&bob.id()).unwrap();
    assert_eq!(contact.trust, Trust::Trusted);
    assert_eq!(contact.first_seen, now());
    assert_eq!(contact.last_seen, Timestamp::new(2000, 0));

    let stranger = ContactId::from_key([9u8; 32]);
    let before = domain.known_identities().clone();
    let actions =
        domain.process_ui_command_at(UiCommand::TrustContact(stranger, Trust::Trusted), now()).unwrap();
    assert!(actions.is_empty());
    assert_eq!(domain.known_identities(), &before);
}

#[test]
fn send_message_needs_an_open_connection() {
    let mut domain = ClientDomain::new();
    let bob = user("bob", 2).identity;
    let message = Message::new("hi".to_string(), bob.id(), now());
    assert!(
        domain.process_ui_command_at(UiCommand::SendMessage(bob.id(), message.clone()), now())
            == Err(ClientError::NoConnection(bob.id()))
    );
    assert!(domain.send_message(bob.id(), message.clone()) == Err(ClientError::NoConnection(bob.id())));
    assert!(
        domain.send_encoded(bob.id(), message.clone(), Err(CoreError::MessagePackEncode))
            == Err(ClientError::CoreError(CoreError::MessagePackEncode))
    );
}

#[test]
fn send_message_goes_to_the_connection_established_last() {
    let mut domain = ClientDomain::new();
    let bob = user("bob", 2).identity;
    let first = address(1, 9000);
    let second = address(2, 9000);
    domain.process_net_event_at(NetworkEvent::ConnectionEstablished(first, bob.clone()), now()).unwrap();
    domain.process_net_event_at(NetworkEvent::ConnectionEstablished(second, bob.clone()), now()).unwrap();
    let message = Message::new("hi".to_string(), bob.id(), now());
    let wire = message.to_wire().unwrap();
    let actions =
        domain.process_ui_command_at(UiCommand::SendMessage(bob.id(), message.clone()), now()).unwrap();
    assert!(
        actions
            == vec![
                ClientAction::Net(NetworkCommand::SendMessage(second, bob.id(), wire.clone())),
                ClientAction::Ui(UiEvent::MessageSent(second, bob.id(), message.clone())),
            ]
    );
    let actions = domain
        .process_net_event_at(NetworkEvent::ConnectionLost(second, bob.id()), now())
        .unwrap();
    assert!(actions == vec![ClientAction::Ui(UiEvent::ConnectionLost(second, bob.id()))]);
    assert_eq!(domain.open_connection(&bob.id()), Some(first));
    let actions = domain.process_net_event_at(NetworkEvent::ConnectionReset(first), now()).unwrap();
    assert!(actions == vec![ClientAction::Ui(UiEvent::ConnectionReset(first))]);
    assert_eq!(domain.open_connection(&bob.id()), None);
    assert!(
        domain.process_ui_command_at(UiCommand::SendMessage(bob.id(), message), now())
            == Err(ClientError::NoConnection(bob.id()))
    );
}

#[test]
fn incoming_message_lands_in_the_chat_of_its_contact() {
    let mut domain = ClientDomain::new();
    let bob = ContactId::from_key([2u8; 32]);
    let remote = address(1, 9000);
    let late = Message::new("late".to_string(), bob, Timestamp::new(20, 0));
    let early = Message::new("early".to_string(), bob, Timestamp::new(10, 0));
    let actions = domain
        .process_net_event_at(
            NetworkEvent::IncomingMessage(remote, bob, late.to_wire().unwrap()),
            now(),
        )
        .unwrap();
    let mut chats = Chats::new();
    chats.add_message(bob, late.clone());
    assert!(actions == vec![ClientAction::Ui(UiEvent::LoadedChats(chats.clone()))]);
    let actions = domain.incoming_message(remote, bob, early.to_wire().unwrap()).unwrap();
    chats.add_message(bob, early.clone());
    assert!(actions == vec![ClientAction::Ui(UiEvent::LoadedChats(chats.clone()))]);
    let texts: Vec<&str> =
        domain.chats().get(&bob).unwrap().messages().iter().map(|m| m.text.as_str()).collect();
    assert_eq!(texts, vec!["early", "late"]);
}

#[test]
fn incoming_bytes_that_are_no_message_change_nothing() {
    let mut domain = ClientDomain::new();
    let bob = ContactId::from_key([2u8; 32]);
    let remote = address(1, 9000);
    assert!(
        domain.process_net_event_at(NetworkEvent::IncomingMessage(remote, bob, vec![1, 2, 3]), now())
            == Err(ClientError::CoreError(CoreError::MessagePackDecode))
    );
    assert!(domain.incoming_message(remote, bob, vec![]) == Err(CoreError::MessagePackDecode));
    assert_eq!(domain.chats().len(), 0);
}

#[test]
fn chats_are_started_and_selected() {
    let mut domain = ClientDomain::new();
    let bob = ContactId::from_key([2u8; 32]);
    assert!(
        domain.process_ui_command_at(UiCommand::SelectChat(bob), now())
            == Ok(vec![ClientAction::Ui(UiEvent::ChatNotFound(bob))])
    );
    let mut chats = Chats::new();
    chats.create_or_update(bob);
    assert!(
        domain.process_ui_command_at(UiCommand::StartChat(bob), now())
            == Ok(vec![ClientAction::Ui(UiEvent::LoadedChats(chats.clone()))])
    );
    assert!(
        domain.process_ui_command_at(UiCommand::StartChat(bob), now())
            == Ok(vec![ClientAction::Ui(UiEvent::LoadedChats(chats))])
    );
    assert!(
        domain.process_ui_command_at(UiCommand::SelectChat(bob), now())
            == Ok(vec![ClientAction::Ui(UiEvent::ChatLoaded(Chat::new()))])
    );
}

#[test]
fn other_network_events_are_relayed() {
    let mut domain = ClientDomain::new();
    let addr = address(1, 9000);
    let id = ContactId::from_key([2u8; 32]);
    assert!(
        domain.process_net_event_at(NetworkEvent::ListenerStarted(addr), now())
            == Ok(vec![ClientAction::Ui(UiEvent::ListenerStarted(addr))])
    );
    assert!(
        domain.process_net_event(NetworkEvent::ListenerStopped)
            == Ok(vec![ClientAction::Ui(UiEvent::ListenerStopped)])
    );
    assert!(
        domain.process_net_event_at(NetworkEvent::ListenerFailed(CoreError::ChannelRecv), now())
            == Ok(vec![ClientAction::Ui(UiEvent::ListenerStopped)])
    );
    assert!(
        domain.process_net_event_at(NetworkEvent::ConnectionFailed(addr, "no".to_string()), now())
            == Ok(vec![ClientAction::Ui(UiEvent::ConnectionFailed(addr, "no".to_string()))])
    );
    assert!(
        domain.process_net_event_at(NetworkEvent::ConnectionLost(addr, id), now())
            == Ok(vec![ClientAction::Ui(UiEvent::ConnectionLost(addr, id))])
    );
    assert!(
        domain.process_net_event_at(NetworkEvent::MessageSent(addr, id, vec![1]), now())
            == Ok(vec![])
    );
}

#[test]
fn listener_status_follows_events() {
    let addr = address(1, 9000);
    let status = ListenerStatus::default();
    assert_eq!(status, ListenerStatus::Stopped);
    let status = status.after_event(&UiEvent::ListenerStarted(addr));
    assert_eq!(status, ListenerStatus::Active(addr));
    let status = status.after_event(&UiEvent::ConnectionReset(addr));
    assert_eq!(status, ListenerStatus::Active(addr));
    let status = status.after_event(&UiEvent::ListenerStopped);
    assert_eq!(status, ListenerStatus::Stopped);
    assert_eq!(ListenerStatus::Starting.after_event(&UiEvent::ListenerStopped), ListenerStatus::Stopped);
}

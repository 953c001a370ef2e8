use sremp::domain::{
    Connection, ListenerState, NetworkAction, NetworkCommand, NetworkDomain, NetworkEvent,
};
use sremp::error::CoreError;
use sremp::identity::trust::Trust;
use sremp::identity::{ContactId, ContactIdentity, Identity, UserIdentity};
use sremp::net::address::SocketAddress;
use sremp::net::frame::{Frame, MAX_FRAME_PAYLOAD_SIZE};
use sremp::net::handshake::{authenticate_peer, authenticate_verified, same_bytes};
use sremp::time::Timestamp;

fn user(name: &str, seed: u8) -> UserIdentity {
    UserIdentity::from_keys(name, [seed; 32], [seed.wrapping_add(100); 32], Timestamp::new(1, 0))
        .unwrap()
}

fn peer(name: &str, seed: u8) -> Identity {
    user(name, seed).identity
}

fn address(last: u32, port: u16) -> SocketAddress {
    SocketAddress::V4 { ip: 0x7f00_0000 + last, port }
}

#[test]
fn network_domain_starts_empty() {
    let domain = NetworkDomain::new();
    assert_eq!(domain.active_connections().len(), 0);
    assert_eq!(domain.listener(), ListenerState::Stopped);
    assert!(domain.user_identity().is_none());
    assert!(domain.identity() == Err(CoreError::NoUserIdentity));
}

#[test]
fn connect_needs_an_identity() {
    let mut domain = NetworkDomain::new();
    let remote = address(1, 9000);
    assert!(
        domain.process_network_command(NetworkCommand::Connect(remote))
            == Err(CoreError::NoUserIdentity)
    );
    assert!(domain.connect_from(remote) == Err(CoreError::NoUserIdentity));
    let alice = user("alice", 1);
    let actions = domain
        .process_network_command(NetworkCommand::SetIdentity(Some(alice.clone())))
        .unwrap();
    assert!(actions.is_empty());
    assert!(domain.user_identity() == Some(&alice));
    let actions = domain.process_network_command(NetworkCommand::Connect(remote)).unwrap();
    assert!(actions == vec![NetworkAction::OpenConnection(remote)]);
    assert!(domain.connect_from(remote) == Ok(&alice));
    assert_eq!(domain.active_connections().len(), 0);
}

#[test]
fn set_identity_replaces_and_keeps_connections() {
    let mut domain = NetworkDomain::new();
    domain.process_network_command(NetworkCommand::SetIdentity(Some(user("alice", 1)))).unwrap();
    domain.init_connection(address(1, 1), Connection { handle: 1 }, peer("bob", 2));
    domain.process_network_command(NetworkCommand::SetIdentity(Some(user("alicia", 3)))).unwrap();
    assert!(domain.user_identity() == Some(&user("alicia", 3)));
    assert_eq!(domain.active_connections().len(), 1);
    domain.process_network_command(NetworkCommand::SetIdentity(None)).unwrap();
    assert!(domain.user_identity().is_none());
    assert_eq!(domain.active_connections().len(), 1);
}

#[test]
fn handshake_enters_connection_and_reports_it() {
    let mut domain = NetworkDomain::new();
    let bob = peer("bob", 2);
    let actions = domain.init_connection(address(1, 1), Connection { handle: 7 }, bob.clone());
    assert_eq!(
        actions,
        vec![NetworkAction::Emit(NetworkEvent::ConnectionEstablished(address(1, 1), bob.clone()))]
    );
    let entry = domain.active_connections().get(&address(1, 1)).unwrap();
    assert_eq!(entry.conn, Connection { handle: 7 });
    assert_eq!(entry.iden, bob);
    let known = ContactIdentity::from_peer_identity(bob.clone(), Trust::Unknown).unwrap();
    assert_eq!(domain.find_socket_addr_for_contact(&known), Some(address(1, 1)));
    let stranger = ContactIdentity::from_peer_identity(peer("carol", 3), Trust::Unknown).unwrap();
    assert_eq!(domain.find_socket_addr_for_contact(&stranger), None);
}

#[test]
fn second_connection_to_one_address_is_closed_and_first_kept() {
    let mut domain = NetworkDomain::new();
    let bob = peer("bob", 2);
    let carol = peer("carol", 3);
    domain.init_connection(address(1, 1), Connection { handle: 7 }, bob.clone());
    let actions = domain.init_connection(address(1, 1), Connection { handle: 8 }, carol);
    assert_eq!(
        actions,
        vec![
            NetworkAction::CloseConnection(Connection { handle: 8 }),
            NetworkAction::Emit(NetworkEvent::ConnectionFailed(
                address(1, 1),
                "already connected to this peer".to_string()
            )),
        ]
    );
    assert_eq!(domain.active_connections().len(), 1);
    let entry = domain.active_connections().get(&address(1, 1)).unwrap();
    assert_eq!(entry.conn, Connection { handle: 7 });
    assert_eq!(entry.iden, bob);
}

#[test]
fn listener_starts_once() {
    let mut domain = NetworkDomain::new();
    let any = SocketAddress::V4 { ip: 0, port: 0 };
    let actions = domain.process_network_command(NetworkCommand::StartListener(any)).unwrap();
    assert_eq!(actions, vec![NetworkAction::Bind(any)]);
    assert_eq!(domain.listener(), ListenerState::Starting(any));
    assert!(
        domain.process_network_command(NetworkCommand::StartListener(any))
            == Err(CoreError::ListenerAlreadyActive)
    );
    let bound = address(1, 45000);
    let actions = domain.listener_started(bound);
    assert_eq!(actions, vec![NetworkAction::Emit(NetworkEvent::ListenerStarted(bound))]);
    assert_eq!(domain.listener(), ListenerState::Active(bound));
    assert!(domain.listen(any) == Err(CoreError::ListenerAlreadyActive));
    assert_eq!(domain.listener(), ListenerState::Active(bound));
}

#[test]
fn stop_listener_reports_stopped_with_and_without_listener() {
    let mut domain = NetworkDomain::new();
    let actions = domain.process_network_command(NetworkCommand::StopListener).unwrap();
    assert_eq!(actions, vec![NetworkAction::Emit(NetworkEvent::ListenerStopped)]);
    let any = SocketAddress::V4 { ip: 0, port: 0 };
    domain.process_network_command(NetworkCommand::StartListener(any)).unwrap();
    domain.listener_started(address(1, 45000));
    let actions = domain.process_network_command(NetworkCommand::StopListener).unwrap();
    assert_eq!(
        actions,
        vec![NetworkAction::CloseListener, NetworkAction::Emit(NetworkEvent::ListenerStopped)]
    );
    assert_eq!(domain.listener(), ListenerState::Stopped);
    let actions = domain.process_network_command(NetworkCommand::StartListener(any)).unwrap();
    assert_eq!(actions, vec![NetworkAction::Bind(any)]);
}

#[test]
fn listener_failure_is_reported_and_leaves_no_listener() {
    let mut domain = NetworkDomain::new();
    let any = SocketAddress::V4 { ip: 0, port: 0 };
    domain.process_network_command(NetworkCommand::StartListener(any)).unwrap();
    let error = CoreError::IO("address in use".to_string());
    let actions = domain.listener_failed(error.clone());
    assert_eq!(actions, vec![NetworkAction::Emit(NetworkEvent::ListenerFailed(error))]);
    assert_eq!(domain.listener(), ListenerState::Stopped);
}

#[test]
fn send_message_frames_the_payload_for_the_connection() {
    let mut domain = NetworkDomain::new();
    let bob = peer("bob", 2);
    domain.init_connection(address(1, 1), Connection { handle: 7 }, bob.clone());
    let actions = domain
        .process_network_command(NetworkCommand::SendMessage(address(1, 1), bob.id(), b"hi".to_vec()))
        .unwrap();
    assert_eq!(
        actions,
        vec![
            NetworkAction::SendFrame(Connection { handle: 7 }, Frame::from_payload(b"hi").unwrap()),
            NetworkAction::Emit(NetworkEvent::MessageSent(address(1, 1), bob.id(), b"hi".to_vec())),
        ]
    );
}

#[test]
fn send_message_without_connection_is_an_error() {
    let mut domain = NetworkDomain::new();
    let id = ContactId::from_key([1u8; 32]);
    assert!(
        domain.process_network_command(NetworkCommand::SendMessage(address(1, 1), id, vec![1]))
            == Err(CoreError::NotConnected(address(1, 1)))
    );
}

#[test]
fn send_message_refuses_a_payload_that_fits_no_frame() {
    let mut domain = NetworkDomain::new();
    let bob = peer("bob", 2);
    domain.init_connection(address(1, 1), Connection { handle: 7 }, bob.clone());
    let payload = vec![0u8; MAX_FRAME_PAYLOAD_SIZE + 1];
    assert!(
        domain.process_network_command(NetworkCommand::SendMessage(address(1, 1), bob.id(), payload))
            == Err(CoreError::FrameTooLarge(MAX_FRAME_PAYLOAD_SIZE + 1))
    );
}

#[test]
fn disconnect_closes_the_connection_and_reports_it_lost() {
    let mut domain = NetworkDomain::new();
    let bob = peer("bob", 2);
    domain.init_connection(address(1, 1), Connection { handle: 7 }, bob.clone());
    domain.init_connection(address(2, 2), Connection { handle: 8 }, peer("carol", 3));
    let actions = domain.process_network_command(NetworkCommand::Disconnect(address(1, 1))).unwrap();
    assert_eq!(
        actions,
        vec![
            NetworkAction::CloseConnection(Connection { handle: 7 }),
            NetworkAction::Emit(NetworkEvent::ConnectionLost(address(1, 1), bob.id())),
        ]
    );
    assert_eq!(domain.active_connections().len(), 1);
    assert!(domain.active_connections().contains_key(&address(2, 2)));
    assert!(
        domain.process_network_command(NetworkCommand::Disconnect(address(1, 1)))
            == Err(CoreError::NotConnected(address(1, 1)))
    );
}

#[test]
fn lost_and_reset_connections_leave_the_registry() {
    let mut domain = NetworkDomain::new();
    let bob = peer("bob", 2);
    let carol = peer("carol", 3);
    domain.init_connection(address(1, 1), Connection { handle: 7 }, bob.clone());
    domain.init_connection(address(2, 2), Connection { handle: 8 }, carol);
    assert_eq!(
        domain.connection_closed(address(1, 1), false),
        vec![
            NetworkAction::CloseConnection(Connection { handle: 7 }),
            NetworkAction::Emit(NetworkEvent::ConnectionLost(address(1, 1), bob.id())),
        ]
    );
    assert_eq!(
        domain.connection_closed(address(2, 2), true),
        vec![
            NetworkAction::CloseConnection(Connection { handle: 8 }),
            NetworkAction::Emit(NetworkEvent::ConnectionReset(address(2, 2))),
        ]
    );
    assert_eq!(domain.active_connections().len(), 0);
    assert!(domain.connection_closed(address(2, 2), true).is_empty());
}

#[test]
fn failed_handshake_is_reported() {
    let domain = NetworkDomain::new();
    assert_eq!(
        domain.connection_failed(address(1, 1), "refused".to_string()),
        vec![NetworkAction::Emit(NetworkEvent::ConnectionFailed(
            address(1, 1),
            "refused".to_string()
        ))]
    );
}

#[test]
fn received_frame_is_reported_as_message_of_the_peer() {
    let mut domain = NetworkDomain::new();
    let bob = peer("bob", 2);
    domain.init_connection(address(1, 1), Connection { handle: 7 }, bob.clone());
    let frame = Frame::from_payload(b"payload").unwrap();
    assert_eq!(
        domain.frame_received(address(1, 1), &frame),
        Ok(vec![NetworkAction::Emit(NetworkEvent::IncomingMessage(
            address(1, 1),
            bob.id(),
            b"payload".to_vec()
        ))])
    );
    assert_eq!(
        domain.frame_received(address(9, 9), &frame),
        Err(CoreError::NotConnected(address(9, 9)))
    );
}

#[test]
fn peer_is_authenticated_by_document_and_static_key() {
    let bob = user("bob", 2);
    let remote = address(1, 1);
    let key = bob.identity.noise_key();
    assert_eq!(
        authenticate_peer(remote, Some(&key[..]), bob.identity.clone()),
        Ok(bob.identity.clone())
    );
    assert_eq!(
        authenticate_peer(remote, None, bob.identity.clone()),
        Err(CoreError::NoisePeerHasNoPublicKey(remote))
    );
    assert_eq!(
        authenticate_peer(remote, Some(&key[..31]), bob.identity.clone()),
        Err(CoreError::PeerKeyIsMalformed(remote))
    );
    assert_eq!(
        authenticate_peer(remote, Some(&[0u8; 32][..]), bob.identity.clone()),
        Err(CoreError::PeerKeyIsInvalid { remote })
    );
    let mut forged = bob.identity.clone();
    forged.set_username("bobby", &[9u8; 32]).unwrap();
    assert_eq!(
        authenticate_peer(remote, Some(&key[..]), forged.clone()),
        Err(CoreError::PeerKeyIsInvalid { remote })
    );
    assert_eq!(
        authenticate_verified(remote, Some(&key[..]), forged.clone(), Ok(())),
        Ok(forged.clone())
    );
    assert_eq!(
        authenticate_verified(
            remote,
            Some(&key[..]),
            bob.identity.clone(),
            Err(CoreError::MessagePackEncode)
        ),
        Err(CoreError::PeerKeyIsInvalid { remote })
    );
}

#[test]
fn same_bytes_compares_length_and_content() {
    assert!(same_bytes(b"", b""));
    assert!(same_bytes(b"abc", b"abc"));
    assert!(!same_bytes(b"abc", b"abd"));
    assert!(!same_bytes(b"abc", b"ab"));
}

#[test]
fn failed_commands_are_reported_to_the_one_who_gave_them() {
    let remote = address(1, 1);
    assert_eq!(
        NetworkDomain::command_failed(CoreError::NotConnected(remote)),
        vec![NetworkAction::Emit(NetworkEvent::ConnectionFailed(
            remote,
            "No connection exists to 127.0.0.1:1".to_string()
        ))]
    );
    assert_eq!(
        NetworkDomain::command_failed(CoreError::ListenerAlreadyActive),
        vec![NetworkAction::Emit(NetworkEvent::ListenerFailed(CoreError::ListenerAlreadyActive))]
    );
    assert!(NetworkDomain::command_failed(CoreError::NoUserIdentity).is_empty());
    assert!(NetworkDomain::command_failed(CoreError::FrameTooLarge(70000)).is_empty());
}

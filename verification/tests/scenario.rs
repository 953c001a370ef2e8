use sremp::chat::messages::Message;
use sremp::client::{ClientAction, ClientDomain, UiCommand, UiEvent};
use sremp::domain::{Connection, NetworkAction, NetworkCommand, NetworkDomain, NetworkEvent};
use sremp::identity::UserIdentity;
use sremp::net::address::SocketAddress;
use sremp::net::frame::Frame;
use sremp::net::handshake::authenticate_peer;
use sremp::time::Timestamp;

struct Peer {
    client: ClientDomain,
    network: NetworkDomain,
    shown: Vec<UiEvent>,
    transport: Vec<NetworkAction>,
}

fn peer() -> Peer {
    Peer {
        client: ClientDomain::new(),
        network: NetworkDomain::new(),
        shown: Vec::new(),
        transport: Vec::new(),
    }
}

fn deliver_events(peer: &mut Peer, actions: Vec<NetworkAction>) {
    for action in actions {
        match action {
            NetworkAction::Emit(event) => {
                let answers = peer.client.process_net_event(event).unwrap();
                run_client(peer, answers);
            }
            other => peer.transport.push(other),
        }
    }
}

fn run_client(peer: &mut Peer, actions: Vec<ClientAction>) {
    for action in actions {
        match action {
            ClientAction::Ui(event) => peer.shown.push(event),
            ClientAction::Net(command) => {
                let answers = peer.network.process_network_command(command).unwrap();
                deliver_events(peer, answers);
            }
        }
    }
}

fn command(peer: &mut Peer, command: UiCommand) {
    let actions = peer.client.process_ui_command(command).unwrap();
    run_client(peer, actions);
}

#[test]
fn two_peers_connect_and_exchange_a_message() {
    let alice = UserIdentity::create("alice").unwrap();
    let bob = UserIdentity::create("bob").unwrap();
    let mut a = peer();
    let mut b = peer();
    command(&mut a, UiCommand::SetIdentity(Some(alice.clone())));
    command(&mut b, UiCommand::SetIdentity(Some(bob.clone())));

    let any = SocketAddress::V4 { ip: 0, port: 0 };
    command(&mut b, UiCommand::StartListener(any));
    assert!(b.transport == vec![NetworkAction::Bind(any)]);
    b.transport.clear();
    let bound = SocketAddress::V4 { ip: 0x7f00_0001, port: 40123 };
    let started = b.network.listener_started(bound);
    deliver_events(&mut b, started);
    assert!(b.shown.last() == Some(&UiEvent::ListenerStarted(bound)));

    command(&mut a, UiCommand::Connect(bound));
    assert!(a.transport == vec![NetworkAction::OpenConnection(bound)]);
    a.transport.clear();

    let from = SocketAddress::V4 { ip: 0x7f00_0001, port: 51000 };
    assert!(b.network.connect_from(from).is_ok());
    let bob_key = bob.identity.noise_key();
    let alice_key = alice.identity.noise_key();
    let seen_by_a = authenticate_peer(bound, Some(&bob_key[..]), bob.identity.clone()).unwrap();
    let seen_by_b = authenticate_peer(from, Some(&alice_key[..]), alice.identity.clone()).unwrap();
    let established = a.network.init_connection(bound, Connection { handle: 1 }, seen_by_a);
    deliver_events(&mut a, established);
    let established = b.network.init_connection(from, Connection { handle: 1 }, seen_by_b);
    deliver_events(&mut b, established);
    assert!(a.shown.last() == Some(&UiEvent::ConnectionEstablished(bound, bob.identity.id())));
    assert!(b.shown.last() == Some(&UiEvent::ConnectionEstablished(from, alice.identity.id())));

    let message =
        Message::new("hello bob".to_string(), alice.identity.id(), Timestamp::new(1_700_000_000, 0));
    command(&mut a, UiCommand::SendMessage(bob.identity.id(), message.clone()));
    assert!(a.shown.last() == Some(&UiEvent::MessageSent(bound, bob.identity.id(), message.clone())));
    assert_eq!(a.transport.len(), 1);
    let wire = match a.transport.remove(0) {
        NetworkAction::SendFrame(connection, frame) => {
            assert_eq!(connection, Connection { handle: 1 });
            frame.encode()
        }
        _ => panic!("a frame was to be sent"),
    };

    let frame = Frame::decode(&wire).unwrap();
    let received = b.network.frame_received(from, &frame).unwrap();
    match &received[0] {
        NetworkAction::Emit(NetworkEvent::IncomingMessage(remote, id, payload)) => {
            assert_eq!(*remote, from);
            assert_eq!(*id, alice.identity.id());
            assert_eq!(Message::from_wire(payload).unwrap().text, "hello bob");
        }
        _ => panic!("the message was to be reported"),
    }
    deliver_events(&mut b, received);
    let chat = b.client.chats().get(&alice.identity.id()).unwrap();
    assert_eq!(chat.messages().len(), 1);
    assert_eq!(chat.messages()[0], message);
    assert_eq!(b.client.chats().len(), 1);
    assert!(matches!(b.shown.last(), Some(UiEvent::LoadedChats(_))));
}

#[test]
fn frame_of_another_protocol_is_not_taken_for_a_message() {
    let bob = UserIdentity::create("bob").unwrap();
    let mut b = peer();
    let from = SocketAddress::V4 { ip: 0x7f00_0001, port: 51000 };
    let established = b.network.init_connection(from, Connection { handle: 1 }, bob.identity.clone());
    deliver_events(&mut b, established);
    let shown = b.shown.len();
    let wire = b"\x00\x10HTTP/1.1 200\x00\x01ok".to_vec();
    assert!(Frame::decode(&wire).is_err());
    assert_eq!(b.client.chats().len(), 0);
    assert_eq!(b.shown.len(), shown);
    assert_eq!(b.network.active_connections().len(), 1);
}

#[test]
fn setting_the_identity_reaches_the_network_actor() {
    let alice = UserIdentity::create("alice").unwrap();
    let mut a = peer();
    command(&mut a, UiCommand::SetIdentity(Some(alice.clone())));
    assert!(a.network.user_identity() == Some(&alice));
    assert!(a.shown.last() == Some(&UiEvent::IdentitySet(Some(alice.clone()))));
    assert!(
        a.network.process_network_command(NetworkCommand::Connect(SocketAddress::V4 {
            ip: 1,
            port: 1
        })) == Ok(vec![NetworkAction::OpenConnection(SocketAddress::V4 { ip: 1, port: 1 })])
    );
}

//! The network actor: the connection registry, the listener and the local
//! identity, driven by commands and by what the transport reports.
//!
//! The actor decides; it performs no I/O. Each step takes the actor's state
//! and one input, changes the state and answers with the actions that the
//! transport is to carry out, in their order.

use vstd::prelude::*;
use vstd::string::StringExecFns;

use crate::error::{CoreError, CoreResult};
use crate::identity::contact::ContactIdentity;
use crate::identity::id::ContactId;
use crate::identity::user::{UserIdentity, UserIdentityView};
use crate::identity::{Identity, IdentityView};
use crate::net::address::SocketAddress;
use crate::net::frame::{Frame, MAX_FRAME_PAYLOAD_SIZE};
use crate::net::version_header::VersionHeader;

pub mod active_connections;
pub mod commands;
pub mod events;

pub use active_connections::{ActiveConnections, Connection, ConnectionData};
pub use commands::NetworkCommand;
pub use events::NetworkEvent;

use active_connections::{connected, connection_position, ConnectionDataView, ConnectionEntry};
use commands::NetworkCommandView;
use events::NetworkEventView;

verus! {

/// Whether the actor listens for incoming connections.
#[derive(Debug, Clone, Copy, PartialEq, Eq, Structural)]
pub enum ListenerState {
    /// No listener.
    Stopped,
    /// A listener was asked for on the address held and is being bound.
    Starting(SocketAddress),
    /// A listener is bound to the address held.
    Active(SocketAddress),
}

/// What the transport is to do for the actor.
#[derive(Debug, PartialEq, Eq)]
pub enum NetworkAction {
    /// Open a secure connection to the remote address and report how the
    /// handshake ended.
    OpenConnection(SocketAddress),
    /// Bind a listener to the local address and report the bound address.
    Bind(SocketAddress),
    /// Release the listener.
    CloseListener,
    /// Tear the connection down.
    CloseConnection(Connection),
    /// Write the frame to the connection.
    SendFrame(Connection, Frame),
    /// Put the event on the event channel.
    Emit(NetworkEvent),
}

/// What an action holds.
pub enum NetworkActionView {
    OpenConnection(SocketAddress),
    Bind(SocketAddress),
    CloseListener,
    CloseConnection(Connection),
    SendFrame(Connection, VersionHeader, Seq<u8>),
    Emit(NetworkEventView),
}

impl View for NetworkAction {
    type V = NetworkActionView;

    open spec fn view(&self) -> NetworkActionView {
        match self {
            NetworkAction::OpenConnection(remote) => NetworkActionView::OpenConnection(*remote),
            NetworkAction::Bind(local) => NetworkActionView::Bind(*local),
            NetworkAction::CloseListener => NetworkActionView::CloseListener,
            NetworkAction::CloseConnection(connection) => NetworkActionView::CloseConnection(
                *connection,
            ),
            NetworkAction::SendFrame(connection, frame) => NetworkActionView::SendFrame(
                *connection,
                frame.header(),
                frame.payload(),
            ),
            NetworkAction::Emit(event) => NetworkActionView::Emit(event@),
        }
    }
}

/// The actions of a step, in their order.
pub open spec fn actions_view(actions: Seq<NetworkAction>) -> Seq<NetworkActionView> {
    actions.map_values(|a: NetworkAction| a@)
}

/// The state of the network actor.
pub struct NetworkDomain {
    active_connections: ActiveConnections,
    user_identity: Option<UserIdentity>,
    listener: ListenerState,
}

/// What the state of the network actor holds.
pub struct NetworkDomainView {
    pub connections: Seq<ConnectionEntry>,
    pub identity: Option<UserIdentityView>,
    pub listener: ListenerState,
}

impl View for NetworkDomain {
    type V = NetworkDomainView;

    closed spec fn view(&self) -> NetworkDomainView {
        NetworkDomainView {
            connections: self.active_connections@,
            identity: match self.user_identity {
                Some(user) => Some(user@),
                None => None,
            },
            listener: self.listener,
        }
    }
}

/// The reason given when a second connection to one address is refused.
pub open spec fn already_connected() -> Seq<char> {
    "already connected to this peer"@
}

/// The state and the answer after a handshake with the peer at `remote`
/// succeeded. A remote address that has a connection keeps it: the new
/// connection is closed and the attempt reported as failed. Otherwise the
/// new connection is entered and reported as established.
pub open spec fn after_handshake(
    state: NetworkDomainView,
    remote: SocketAddress,
    connection: Connection,
    peer: IdentityView,
) -> (NetworkDomainView, Seq<NetworkActionView>) {
    if connected(state.connections, remote) {
        (
            state,
            seq![
                NetworkActionView::CloseConnection(connection),
                NetworkActionView::Emit(
                    NetworkEventView::ConnectionFailed(remote, already_connected()),
                ),
            ],
        )
    } else {
        (
            NetworkDomainView {
                connections: state.connections.push(
                    (remote, ConnectionDataView { conn: connection, iden: peer }),
                ),
                ..state
            },
            seq![NetworkActionView::Emit(NetworkEventView::ConnectionEstablished(remote, peer))],
        )
    }
}

/// The state and the answer after a command. An error leaves the state as
/// it was.
pub open spec fn after_command(state: NetworkDomainView, command: NetworkCommandView) -> (
    NetworkDomainView,
    Result<Seq<NetworkActionView>, CoreError>,
) {
    match command {
        NetworkCommandView::Connect(remote) => if state.identity is None {
            (state, Err(CoreError::NoUserIdentity))
        } else {
            (state, Ok(seq![NetworkActionView::OpenConnection(remote)]))
        },
        NetworkCommandView::Disconnect(remote) => if connected(state.connections, remote) {
            let i = connection_position(state.connections, remote);
            let entry = state.connections[i].1;
            (
                NetworkDomainView { connections: state.connections.remove(i), ..state },
                Ok(
                    seq![
                        NetworkActionView::CloseConnection(entry.conn),
                        NetworkActionView::Emit(
                            NetworkEventView::ConnectionLost(
                                remote,
                                contact_of(entry.iden.verified.identity_key),
                            ),
                        ),
                    ],
                ),
            )
        } else {
            (state, Err(CoreError::NotConnected(remote)))
        },
        NetworkCommandView::SendMessage(remote, id, payload) => if !connected(
            state.connections,
            remote,
        ) {
            (state, Err(CoreError::NotConnected(remote)))
        } else if payload.len() > MAX_FRAME_PAYLOAD_SIZE {
            (state, Err(CoreError::FrameTooLarge(payload.len() as usize)))
        } else {
            let i = connection_position(state.connections, remote);
            (
                state,
                Ok(
                    seq![
                        NetworkActionView::SendFrame(
                            state.connections[i].1.conn,
                            VersionHeader::spec_current(),
                            payload,
                        ),
                        NetworkActionView::Emit(NetworkEventView::MessageSent(remote, id, payload)),
                    ],
                ),
            )
        },
        NetworkCommandView::StartListener(local) => if state.listener is Stopped {
            (
                NetworkDomainView { listener: ListenerState::Starting(local), ..state },
                Ok(seq![NetworkActionView::Bind(local)]),
            )
        } else {
            (state, Err(CoreError::ListenerAlreadyActive))
        },
        NetworkCommandView::StopListener => if state.listener is Stopped {
            (state, Ok(seq![NetworkActionView::Emit(NetworkEventView::ListenerStopped)]))
        } else {
            (
                NetworkDomainView { listener: ListenerState::Stopped, ..state },
                Ok(
                    seq![
                        NetworkActionView::CloseListener,
                        NetworkActionView::Emit(NetworkEventView::ListenerStopped),
                    ],
                ),
            )
        },
        NetworkCommandView::SetIdentity(identity) => (
            NetworkDomainView { identity, ..state },
            Ok(Seq::empty()),
        ),
    }
}

/// The state and the answer after the transport lost the connection to
/// `remote`: by a failure of the transport where `reset` holds, else because
/// the peer closed it. Where no such connection is entered nothing happens.
pub open spec fn after_close(state: NetworkDomainView, remote: SocketAddress, reset: bool) -> (
    NetworkDomainView,
    Seq<NetworkActionView>,
) {
    if connected(state.connections, remote) {
        let i = connection_position(state.connections, remote);
        let entry = state.connections[i].1;
        (
            NetworkDomainView { connections: state.connections.remove(i), ..state },
            seq![
                NetworkActionView::CloseConnection(entry.conn),
                NetworkActionView::Emit(
                    if reset {
                        NetworkEventView::ConnectionReset(remote)
                    } else {
                        NetworkEventView::ConnectionLost(
                            remote,
                            contact_of(entry.iden.verified.identity_key),
                        )
                    },
                ),
            ],
        )
    } else {
        (state, Seq::empty())
    }
}

/// What is reported of a command that failed. A command for a remote
/// address without a connection is reported as a failed connection to that
/// address, with the error's message as the reason; a second listener is
/// reported as a failed listener. Of other failures nothing is reported.
pub open spec fn failure_report(error: CoreError) -> Seq<NetworkActionView> {
    match error {
        CoreError::NotConnected(remote) => seq![
            NetworkActionView::Emit(NetworkEventView::ConnectionFailed(remote, error.text())),
        ],
        CoreError::ListenerAlreadyActive => seq![
            NetworkActionView::Emit(NetworkEventView::ListenerFailed(error)),
        ],
        _ => Seq::empty(),
    }
}

/// The identifier with the given key bytes.
pub open spec fn contact_of(key: Seq<u8>) -> ContactId {
    choose|id: ContactId| id.bytes() == key
}

impl NetworkDomain {
    /// The initial state: no listener, no connection, no identity.
    pub fn new() -> (domain: NetworkDomain)
        ensures
            domain@ == (NetworkDomainView {
                connections: Seq::empty(),
                identity: None,
                listener: ListenerState::Stopped,
            }),
    {
        NetworkDomain {
            active_connections: ActiveConnections::new(),
            user_identity: None,
            listener: ListenerState::Stopped,
        }
    }

    /// The connection registry.
    pub fn active_connections(&self) -> (registry: &ActiveConnections)
        ensures
            registry@ == self@.connections,
    {
        &self.active_connections
    }

    /// The state of the listener.
    pub fn listener(&self) -> (listener: ListenerState)
        ensures
            listener == self@.listener,
    {
        self.listener
    }

    /// The working copy of the local user's identity, if one was set.
    pub fn user_identity(&self) -> (identity: Option<&UserIdentity>)
        ensures
            match identity {
                Some(user) => self@.identity == Some(user@),
                None => self@.identity is None,
            },
    {
        self.user_identity.as_ref()
    }

    /// The local user's identity, which connecting needs.
    pub fn identity(&self) -> (res: CoreResult<&UserIdentity>)
        ensures
            match res {
                Ok(user) => self@.identity == Some(user@),
                Err(e) => self@.identity is None && e == CoreError::NoUserIdentity,
            },
    {
        match &self.user_identity {
            Some(user) => Ok(user),
            None => Err(CoreError::NoUserIdentity),
        }
    }

    /// Which address currently reaches a contact.
    pub fn find_socket_addr_for_contact(&self, iden: &ContactIdentity) -> (res: Option<
        SocketAddress,
    >)
        ensures
            res == active_connections::address_of_contact(
                self@.connections,
                iden@.identity.verified.identity_key,
            ),
    {
        self.active_connections.find_socket_addr_for_contact(&iden.identity.id())
    }

    /// Takes a command and answers with what the transport is to do.
    pub fn process_network_command(&mut self, command: NetworkCommand) -> (res: CoreResult<
        Vec<NetworkAction>,
    >)
        ensures
            final(self)@ == after_command(old(self)@, command@).0,
            match res {
                Ok(actions) => after_command(old(self)@, command@).1 == Ok::<
                    Seq<NetworkActionView>,
                    CoreError,
                >(actions_view(actions@)),
                Err(e) => after_command(old(self)@, command@).1 == Err::<
                    Seq<NetworkActionView>,
                    CoreError,
                >(e),
            },
    {
        let mut actions: Vec<NetworkAction> = Vec::new();
        match command {
            NetworkCommand::Connect(remote) => {
                match self.connect_to(remote) {
                    Ok(action) => {
                        actions.push(action);
                    },
                    Err(e) => {
                        return Err(e);
                    },
                }
            },
            NetworkCommand::StartListener(listen_addr) => {
                match self.listen(listen_addr) {
                    Ok(action) => {
                        actions.push(action);
                    },
                    Err(e) => {
                        return Err(e);
                    },
                }
            },
            NetworkCommand::StopListener => {
                match self.listener {
                    ListenerState::Stopped => {},
                    _ => {
                        self.listener = ListenerState::Stopped;
                        actions.push(NetworkAction::CloseListener);
                    },
                }
                actions.push(NetworkAction::Emit(NetworkEvent::ListenerStopped));
            },
            NetworkCommand::SetIdentity(iden) => {
                self.user_identity = iden;
            },
            NetworkCommand::Disconnect(remote) => {
                match self.active_connections.remove(&remote) {
                    Some(data) => {
                        let id = data.iden.id();
                        proof {
                            ContactId::lemma_bytes(id, contact_of(data@.iden.verified.identity_key));
                        }
                        actions.push(NetworkAction::CloseConnection(data.conn));
                        actions.push(NetworkAction::Emit(NetworkEvent::ConnectionLost(remote, id)));
                    },
                    None => {
                        return Err(CoreError::NotConnected(remote));
                    },
                }
            },
            NetworkCommand::SendMessage(remote, id, payload) => {
                let conn = match self.active_connections.get(&remote) {
                    Some(data) => data.conn,
                    None => {
                        return Err(CoreError::NotConnected(remote));
                    },
                };
                let frame = match Frame::from_payload(payload.as_slice()) {
                    Ok(frame) => frame,
                    Err(e) => {
                        return Err(e);
                    },
                };
                actions.push(NetworkAction::SendFrame(conn, frame));
                actions.push(NetworkAction::Emit(NetworkEvent::MessageSent(remote, id, payload)));
            },
        }
        assert(actions_view(actions@) =~= after_command(old(self)@, command@).1->Ok_0);
        Ok(actions)
    }

    /// Closes a handshake that succeeded: see `after_handshake`.
    pub fn init_connection(&mut self, remote: SocketAddress, connection: Connection, peer: Identity) -> (actions:
        Vec<NetworkAction>)
        ensures
            final(self)@ == after_handshake(old(self)@, remote, connection, peer@).0,
            actions_view(actions@) == after_handshake(old(self)@, remote, connection, peer@).1,
    {
        let mut actions: Vec<NetworkAction> = Vec::new();
        let data = ConnectionData { conn: connection, iden: peer.clone() };
        match self.active_connections.try_insert(remote, data) {
            Err(_) => {
                proof {
                    reveal_strlit("already connected to this peer");
                }
                actions.push(NetworkAction::CloseConnection(connection));
                actions.push(
                    NetworkAction::Emit(
                        NetworkEvent::ConnectionFailed(
                            remote,
                            String::from_str("already connected to this peer"),
                        ),
                    ),
                );
            },
            Ok(_) => {
                actions.push(NetworkAction::Emit(NetworkEvent::ConnectionEstablished(remote, peer)));
            },
        }
        assert(actions_view(actions@) =~= after_handshake(old(self)@, remote, connection, peer@).1);
        actions
    }

    /// Reports a command that failed to the one who gave it: see
    /// `failure_report`.
    pub fn command_failed(error: CoreError) -> (actions: Vec<NetworkAction>)
        ensures
            actions_view(actions@) == failure_report(error),
    {
        let mut actions: Vec<NetworkAction> = Vec::new();
        match error {
            CoreError::NotConnected(remote) => {
                let reason = error.to_text();
                actions.push(NetworkAction::Emit(NetworkEvent::ConnectionFailed(remote, reason)));
            },
            CoreError::ListenerAlreadyActive => {
                actions.push(NetworkAction::Emit(NetworkEvent::ListenerFailed(error)));
            },
            _ => {},
        }
        assert(actions_view(actions@) =~= failure_report(error));
        actions
    }

    /// Reports a handshake that failed.
    pub fn connection_failed(&self, remote: SocketAddress, reason: String) -> (actions: Vec<
        NetworkAction,
    >)
        ensures
            actions_view(actions@) == seq![
                NetworkActionView::Emit(NetworkEventView::ConnectionFailed(remote, reason@)),
            ],
    {
        let mut actions: Vec<NetworkAction> = Vec::new();
        actions.push(NetworkAction::Emit(NetworkEvent::ConnectionFailed(remote, reason)));
        assert(actions_view(actions@) =~= seq![
            NetworkActionView::Emit(NetworkEventView::ConnectionFailed(remote, reason@)),
        ]);
        actions
    }

    /// Takes note that the transport lost a connection: see `after_close`.
    pub fn connection_closed(&mut self, remote: SocketAddress, reset: bool) -> (actions: Vec<
        NetworkAction,
    >)
        ensures
            final(self)@ == after_close(old(self)@, remote, reset).0,
            actions_view(actions@) == after_close(old(self)@, remote, reset).1,
    {
        let mut actions: Vec<NetworkAction> = Vec::new();
        match self.active_connections.remove(&remote) {
            Some(data) => {
                let id = data.iden.id();
                proof {
                    ContactId::lemma_bytes(id, contact_of(data@.iden.verified.identity_key));
                }
                actions.push(NetworkAction::CloseConnection(data.conn));
                if reset {
                    actions.push(NetworkAction::Emit(NetworkEvent::ConnectionReset(remote)));
                } else {
                    actions.push(NetworkAction::Emit(NetworkEvent::ConnectionLost(remote, id)));
                }
            },
            None => {},
        }
        assert(actions_view(actions@) =~= after_close(old(self)@, remote, reset).1);
        actions
    }

    /// Takes a frame that arrived on the connection to `remote` and reports
    /// its payload as a message of the connection's peer. A frame from an
    /// address without a connection is refused.
    pub fn frame_received(&self, remote: SocketAddress, frame: &Frame) -> (res: CoreResult<
        Vec<NetworkAction>,
    >)
        ensures
            match res {
                Ok(actions) => connected(self@.connections, remote) && actions_view(actions@)
                    == seq![
                    NetworkActionView::Emit(
                        NetworkEventView::IncomingMessage(
                            remote,
                            contact_of(
                                self@.connections[connection_position(
                                    self@.connections,
                                    remote,
                                )].1.iden.verified.identity_key,
                            ),
                            frame.payload(),
                        ),
                    ),
                ],
                Err(e) => !connected(self@.connections, remote) && e == CoreError::NotConnected(
                    remote,
                ),
            },
    {
        let id = match self.active_connections.get(&remote) {
            Some(data) => data.iden.id(),
            None => {
                return Err(CoreError::NotConnected(remote));
            },
        };
        proof {
            ContactId::lemma_bytes(
                id,
                contact_of(
                    self@.connections[connection_position(
                        self@.connections,
                        remote,
                    )].1.iden.verified.identity_key,
                ),
            );
        }
        let payload = vstd::slice::slice_to_vec(frame.data());
        let mut actions: Vec<NetworkAction> = Vec::new();
        actions.push(NetworkAction::Emit(NetworkEvent::IncomingMessage(remote, id, payload)));
        assert(actions_view(actions@) =~= seq![
            NetworkActionView::Emit(
                NetworkEventView::IncomingMessage(remote, id, frame.payload()),
            ),
        ]);
        Ok(actions)
    }

    /// Takes note that the listener is bound, and reports it as started.
    pub fn listener_started(&mut self, bound: SocketAddress) -> (actions: Vec<NetworkAction>)
        ensures
            final(self)@ == (NetworkDomainView {
                listener: ListenerState::Active(bound),
                ..old(self)@
            }),
            actions_view(actions@) == seq![
                NetworkActionView::Emit(NetworkEventView::ListenerStarted(bound)),
            ],
    {
        self.listener = ListenerState::Active(bound);
        let mut actions: Vec<NetworkAction> = Vec::new();
        actions.push(NetworkAction::Emit(NetworkEvent::ListenerStarted(bound)));
        assert(actions_view(actions@) =~= seq![
            NetworkActionView::Emit(NetworkEventView::ListenerStarted(bound)),
        ]);
        actions
    }

    /// Takes note that the listener could not be bound, and reports it.
    pub fn listener_failed(&mut self, error: CoreError) -> (actions: Vec<NetworkAction>)
        ensures
            final(self)@ == (NetworkDomainView { listener: ListenerState::Stopped, ..old(self)@ }),
            actions_view(actions@) == seq![
                NetworkActionView::Emit(NetworkEventView::ListenerFailed(error)),
            ],
    {
        self.listener = ListenerState::Stopped;
        let mut actions: Vec<NetworkAction> = Vec::new();
        actions.push(NetworkAction::Emit(NetworkEvent::ListenerFailed(error)));
        assert(actions_view(actions@) =~= seq![
            NetworkActionView::Emit(NetworkEventView::ListenerFailed(error)),
        ]);
        actions
    }

    /// Starts an outbound connection, which needs the local identity.
    pub fn connect_to(&self, remote: SocketAddress) -> (res: CoreResult<NetworkAction>)
        ensures
            match res {
                Ok(action) => self@.identity is Some && action@ == NetworkActionView::OpenConnection(
                    remote,
                ),
                Err(e) => self@.identity is None && e == CoreError::NoUserIdentity,
            },
    {
        match self.identity() {
            Ok(_) => Ok(NetworkAction::OpenConnection(remote)),
            Err(e) => Err(e),
        }
    }

    /// Decides on an incoming connection: its handshake may start where the
    /// local identity is set, and it is refused where none is.
    pub fn connect_from(&self, remote: SocketAddress) -> (res: CoreResult<&UserIdentity>)
        ensures
            match res {
                Ok(user) => self@.identity == Some(user@),
                Err(e) => self@.identity is None && e == CoreError::NoUserIdentity,
            },
    {
        self.identity()
    }

    /// Starts a listener unless one is starting or active.
    pub fn listen(&mut self, listen_addr: SocketAddress) -> (res: CoreResult<NetworkAction>)
        ensures
            match res {
                Ok(action) => old(self)@.listener is Stopped && action@ == NetworkActionView::Bind(
                    listen_addr,
                ) && final(self)@ == (NetworkDomainView {
                    listener: ListenerState::Starting(listen_addr),
                    ..old(self)@
                }),
                Err(e) => !(old(self)@.listener is Stopped) && e == CoreError::ListenerAlreadyActive
                    && final(self)@ == old(self)@,
            },
    {
        match self.listener {
            ListenerState::Stopped => {
                self.listener = ListenerState::Starting(listen_addr);
                Ok(NetworkAction::Bind(listen_addr))
            },
            _ => Err(CoreError::ListenerAlreadyActive),
        }
    }
}

} // verus!

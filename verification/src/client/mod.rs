//! The client actor: the local user's identity, the trust registry and the
//! chat histories, between the application and the network actor.
//!
//! The actor decides; it performs no I/O. Each step takes the actor's state
//! and one command of the application or one event of the network actor,
//! changes the state and answers with the commands to send to the network
//! actor and the events to emit to the application, in their order.

use vstd::prelude::*;

use crate::chat::messages::{message_decoding, message_encoding, Message, MessageView};
use crate::client::chats::{chat_position, has_chat, opened, with_message, ChatEntry, Chats};
use crate::client::error::{ClientError, ClientResult};
use crate::client::known_identities::{observe, with_trust, KnownIdentities};
use crate::domain::commands::{NetworkCommand, NetworkCommandView};
use crate::domain::contact_of;
use crate::domain::events::{NetworkEvent, NetworkEventView};
use crate::error::{CoreError, CoreResult};
use crate::identity::contact::ContactIdentityView;
use crate::identity::id::ContactId;
use crate::identity::user::{UserIdentity, UserIdentityView};
use crate::net::address::SocketAddress;
use crate::time::Timestamp;

pub mod chats;
pub mod commands;
pub mod error;
pub mod events;
pub mod known_identities;
pub mod listen;

pub use commands::UiCommand;
pub use events::UiEvent;

use commands::UiCommandView;
use events::UiEventView;

verus! {

/// What the client actor wants done.
#[derive(PartialEq, Eq)]
pub enum ClientAction {
    /// Send the command to the network actor.
    Net(NetworkCommand),
    /// Emit the event to the application.
    Ui(UiEvent),
}

/// What an action of the client actor holds.
pub enum ClientActionView {
    Net(NetworkCommandView),
    Ui(UiEventView),
}

impl View for ClientAction {
    type V = ClientActionView;

    open spec fn view(&self) -> ClientActionView {
        match self {
            ClientAction::Net(command) => ClientActionView::Net(command@),
            ClientAction::Ui(event) => ClientActionView::Ui(event@),
        }
    }
}

/// The actions of a step, in their order.
pub open spec fn actions_view(actions: Seq<ClientAction>) -> Seq<ClientActionView> {
    actions.map_values(|a: ClientAction| a@)
}

/// A contact and the remote address of a connection to it.
pub type OpenConnection = (ContactId, SocketAddress);

/// The state of the client actor. A connection counts as open from the
/// event that reports it established to the event that reports it lost or
/// reset; a message to a contact goes to the connection established last.
pub struct ClientDomain {
    known_identities: KnownIdentities,
    chats: Chats,
    user_identity: Option<UserIdentity>,
    open_connections: Vec<OpenConnection>,
}

/// What the state of the client actor holds. The open connections stand in
/// the order in which they were established.
pub struct ClientDomainView {
    pub known_identities: Seq<ContactIdentityView>,
    pub chats: Seq<ChatEntry>,
    pub identity: Option<UserIdentityView>,
    pub open_connections: Seq<OpenConnection>,
}

impl View for ClientDomain {
    type V = ClientDomainView;

    closed spec fn view(&self) -> ClientDomainView {
        ClientDomainView {
            known_identities: self.known_identities@,
            chats: self.chats@,
            identity: match self.user_identity {
                Some(user) => Some(user@),
                None => None,
            },
            open_connections: self.open_connections@,
        }
    }
}

/// The address of the open connection to a contact: that of the connection
/// established last.
pub open spec fn resolve(open: Seq<OpenConnection>, id: ContactId) -> Option<SocketAddress>
    decreases open.len(),
{
    if open.len() == 0 {
        None
    } else if open.last().0 == id {
        Some(open.last().1)
    } else {
        resolve(open.drop_last(), id)
    }
}

/// The open connections without those to a remote address; the others keep
/// their order.
pub open spec fn forget(open: Seq<OpenConnection>, remote: SocketAddress) -> Seq<OpenConnection>
    decreases open.len(),
{
    if open.len() == 0 {
        open
    } else if open.last().1 == remote {
        forget(open.drop_last(), remote)
    } else {
        forget(open.drop_last(), remote).push(open.last())
    }
}

/// What an answer holds.
pub open spec fn answer_view(answer: ClientResult<Vec<ClientAction>>) -> Result<
    Seq<ClientActionView>,
    ClientError,
> {
    match answer {
        Ok(actions) => Ok(actions_view(actions@)),
        Err(e) => Err(e),
    }
}

/// The wire representation of the message is read back as the message.
pub open spec fn reads_back(message: MessageView) -> bool {
    message_decoding(message_encoding(message)) == Some(message)
}

/// The answer where no wire representation that reads back as the message
/// could be produced: the failure to encode, or the failure to read back.
pub open spec fn wire_failure(message: MessageView, answer: ClientResult<Vec<ClientAction>>) -> bool {
    ||| answer == Err::<Vec<ClientAction>, ClientError>(
        ClientError::CoreError(CoreError::MessagePackEncode),
    )
    ||| answer == Err::<Vec<ClientAction>, ClientError>(
        ClientError::CoreError(CoreError::MessagePackDecode),
    ) && !reads_back(message)
}

/// The answer to a request to send a message whose wire representation is
/// `bytes`: the bytes go to the open connection to the contact, and the
/// application is told. With no open connection nothing is sent.
pub open spec fn sending(
    open: Seq<OpenConnection>,
    to: ContactId,
    message: MessageView,
    bytes: Seq<u8>,
) -> Result<Seq<ClientActionView>, ClientError> {
    match resolve(open, to) {
        Some(remote) => Ok(
            seq![
                ClientActionView::Net(NetworkCommandView::SendMessage(remote, to, bytes)),
                ClientActionView::Ui(UiEventView::MessageSent(remote, to, message)),
            ],
        ),
        None => Err(ClientError::NoConnection(to)),
    }
}

/// The state and the answer after a command of the application at `now`. A
/// message is sent as its wire representation; an error leaves the state as
/// it was.
pub open spec fn after_ui_command(state: ClientDomainView, command: UiCommandView, now: Timestamp) -> (
    ClientDomainView,
    Result<Seq<ClientActionView>, ClientError>,
) {
    match command {
        UiCommandView::StopListener => (
            state,
            Ok(seq![ClientActionView::Net(NetworkCommandView::StopListener)]),
        ),
        UiCommandView::StartListener(local) => (
            state,
            Ok(seq![ClientActionView::Net(NetworkCommandView::StartListener(local))]),
        ),
        UiCommandView::Connect(remote) => (
            state,
            Ok(seq![ClientActionView::Net(NetworkCommandView::Connect(remote))]),
        ),
        UiCommandView::Disconnect(remote) => (
            state,
            Ok(seq![ClientActionView::Net(NetworkCommandView::Disconnect(remote))]),
        ),
        UiCommandView::SetIdentity(identity) => match identity {
            Some(user) => {
                let known = observe(state.known_identities, user.identity, now);
                (
                    ClientDomainView { known_identities: known, identity, ..state },
                    Ok(
                        seq![
                            ClientActionView::Ui(UiEventView::SetKnownIdentities(known)),
                            ClientActionView::Net(NetworkCommandView::SetIdentity(identity)),
                            ClientActionView::Ui(UiEventView::IdentitySet(identity)),
                        ],
                    ),
                )
            },
            None => (
                ClientDomainView { identity, ..state },
                Ok(
                    seq![
                        ClientActionView::Net(NetworkCommandView::SetIdentity(identity)),
                        ClientActionView::Ui(UiEventView::IdentitySet(identity)),
                    ],
                ),
            ),
        },
        UiCommandView::SendMessage(to, message) => (
            state,
            sending(state.open_connections, to, message, message_encoding(message)),
        ),
        UiCommandView::StartChat(id) => {
            let chats = opened(state.chats, id);
            (
                ClientDomainView { chats, ..state },
                Ok(seq![ClientActionView::Ui(UiEventView::LoadedChats(chats))]),
            )
        },
        UiCommandView::SelectChat(id) => if has_chat(state.chats, id) {
            (
                state,
                Ok(
                    seq![
                        ClientActionView::Ui(
                            UiEventView::ChatLoaded(state.chats[chat_position(state.chats, id)].1),
                        ),
                    ],
                ),
            )
        } else {
            (state, Ok(seq![ClientActionView::Ui(UiEventView::ChatNotFound(id))]))
        },
        UiCommandView::TrustContact(id, trust) => (
            ClientDomainView {
                known_identities: with_trust(state.known_identities, id.bytes(), trust),
                ..state
            },
            Ok(Seq::empty()),
        ),
    }
}

/// The state and the answer after an event of the network actor at `now`.
/// An error leaves the state as it was.
pub open spec fn after_net_event(state: ClientDomainView, event: NetworkEventView, now: Timestamp) -> (
    ClientDomainView,
    Result<Seq<ClientActionView>, ClientError>,
) {
    match event {
        NetworkEventView::ListenerStopped => (
            state,
            Ok(seq![ClientActionView::Ui(UiEventView::ListenerStopped)]),
        ),
        NetworkEventView::ListenerFailed(_) => (
            state,
            Ok(seq![ClientActionView::Ui(UiEventView::ListenerStopped)]),
        ),
        NetworkEventView::ListenerStarted(local) => (
            state,
            Ok(seq![ClientActionView::Ui(UiEventView::ListenerStarted(local))]),
        ),
        NetworkEventView::ConnectionLost(remote, id) => (
            ClientDomainView { open_connections: forget(state.open_connections, remote), ..state },
            Ok(seq![ClientActionView::Ui(UiEventView::ConnectionLost(remote, id))]),
        ),
        NetworkEventView::ConnectionFailed(remote, reason) => (
            state,
            Ok(seq![ClientActionView::Ui(UiEventView::ConnectionFailed(remote, reason))]),
        ),
        NetworkEventView::ConnectionReset(remote) => (
            ClientDomainView { open_connections: forget(state.open_connections, remote), ..state },
            Ok(seq![ClientActionView::Ui(UiEventView::ConnectionReset(remote))]),
        ),
        NetworkEventView::ConnectionEstablished(remote, peer) => {
            let known = observe(state.known_identities, peer, now);
            let id = contact_of(peer.verified.identity_key);
            (
                ClientDomainView {
                    known_identities: known,
                    open_connections: state.open_connections.push((id, remote)),
                    ..state
                },
                Ok(
                    seq![
                        ClientActionView::Ui(UiEventView::SetKnownIdentities(known)),
                        ClientActionView::Ui(UiEventView::ConnectionEstablished(remote, id)),
                    ],
                ),
            )
        },
        NetworkEventView::MessageSent(_, _, _) => (state, Ok(Seq::empty())),
        NetworkEventView::IncomingMessage(remote, id, data) => match message_decoding(data) {
            Some(message) => {
                let chats = with_message(state.chats, id, message);
                (
                    ClientDomainView { chats, ..state },
                    Ok(seq![ClientActionView::Ui(UiEventView::LoadedChats(chats))]),
                )
            },
            None => (state, Err(ClientError::CoreError(CoreError::MessagePackDecode))),
        },
    }
}

/// A copy of an optional user identity.
fn copy_of(identity: &Option<UserIdentity>) -> (copy: Option<UserIdentity>)
    ensures
        match copy {
            Some(user) => identity matches Some(given) && user@ == given@,
            None => identity is None,
        },
{
    match identity {
        Some(user) => Some(user.clone()),
        None => None,
    }
}

impl ClientDomain {
    /// The initial state: no identity, nobody known, no chat, no connection.
    pub fn new() -> (domain: ClientDomain)
        ensures
            domain@ == (ClientDomainView {
                known_identities: Seq::empty(),
                chats: Seq::empty(),
                identity: None,
                open_connections: Seq::empty(),
            }),
    {
        ClientDomain {
            known_identities: KnownIdentities::new(),
            chats: Chats::new(),
            user_identity: None,
            open_connections: Vec::new(),
        }
    }

    /// The trust registry.
    pub fn known_identities(&self) -> (known: &KnownIdentities)
        ensures
            known@ == self@.known_identities,
    {
        &self.known_identities
    }

    /// The chat histories.
    pub fn chats(&self) -> (chats: &Chats)
        ensures
            chats@ == self@.chats,
    {
        &self.chats
    }

    /// The local user's identity, if one was set.
    pub fn user_identity(&self) -> (identity: Option<&UserIdentity>)
        ensures
            match identity {
                Some(user) => self@.identity == Some(user@),
                None => self@.identity is None,
            },
    {
        self.user_identity.as_ref()
    }

    /// The address of the open connection to a contact: that of the
    /// connection established last.
    pub fn open_connection(&self, id: &ContactId) -> (res: Option<SocketAddress>)
        ensures
            res == resolve(self@.open_connections, *id),
    {
        let mut k: usize = self.open_connections.len();
        assert(self.open_connections@.subrange(0, k as int) =~= self.open_connections@);
        while k > 0
            invariant
                k <= self.open_connections@.len(),
                resolve(self.open_connections@, *id) == resolve(
                    self.open_connections@.subrange(0, k as int),
                    *id,
                ),
            decreases k,
        {
            let ghost head = self.open_connections@.subrange(0, k as int);
            assert(head.last() == self.open_connections@[k - 1]);
            assert(head.drop_last() =~= self.open_connections@.subrange(0, k - 1));
            if self.open_connections[k - 1].0 == *id {
                return Some(self.open_connections[k - 1].1);
            }
            k -= 1;
        }
        None
    }

    /// Forgets the open connections to a remote address.
    fn forget_connections(&mut self, remote: SocketAddress)
        ensures
            final(self)@ == (ClientDomainView {
                open_connections: forget(old(self)@.open_connections, remote),
                ..old(self)@
            }),
    {
        let mut kept: Vec<OpenConnection> = Vec::new();
        let mut i: usize = 0;
        assert(self.open_connections@.subrange(0, 0) =~= Seq::<OpenConnection>::empty());
        while i < self.open_connections.len()
            invariant
                i <= self.open_connections@.len(),
                kept@ == forget(self.open_connections@.subrange(0, i as int), remote),
            decreases self.open_connections@.len() - i,
        {
            let ghost head = self.open_connections@.subrange(0, i + 1);
            assert(head.drop_last() =~= self.open_connections@.subrange(0, i as int));
            assert(head.last() == self.open_connections@[i as int]);
            if self.open_connections[i].1 != remote {
                kept.push(self.open_connections[i]);
            }
            i += 1;
        }
        assert(self.open_connections@.subrange(0, i as int) =~= self.open_connections@);
        self.open_connections = kept;
    }

    /// Takes a command of the application, at the clock's reading: see
    /// `process_ui_command_at`.
    pub fn process_ui_command(&mut self, command: UiCommand) -> (res: ClientResult<
        Vec<ClientAction>,
    >)
        ensures
            exists|now: Timestamp|
                ((final(self)@, answer_view(res)) == #[trigger] after_ui_command(
                    old(self)@,
                    command@,
                    now,
                )) || (command matches UiCommand::SendMessage(_, message) && final(self)@ == old(
                    self,
                )@ && wire_failure(message@, res)),
            (command is SendMessage && res is Ok) ==> reads_back(command->SendMessage_1@),
    {
        let now = Timestamp::now();
        let ghost expected = after_ui_command(self@, command@, now);
        self.process_ui_command_at(command, now)
    }

    /// Takes a command of the application at `now` and answers with what is
    /// to be sent and emitted: see `after_ui_command`. A message is sent only
    /// if its wire representation could be produced and reads back as the
    /// message.
    pub fn process_ui_command_at(&mut self, command: UiCommand, now: Timestamp) -> (res:
        ClientResult<Vec<ClientAction>>)
        ensures
            ((final(self)@, answer_view(res)) == after_ui_command(old(self)@, command@, now)) || (
            command matches UiCommand::SendMessage(_, message) && final(self)@ == old(self)@
                && wire_failure(message@, res)),
            (command is SendMessage && res is Ok) ==> reads_back(command->SendMessage_1@),
    {
        match command {
            UiCommand::StopListener => self.listener_stop(),
            UiCommand::StartListener(local_addr) => self.listener_start(local_addr),
            UiCommand::Connect(remote) => self.connect(remote),
            UiCommand::Disconnect(remote) => self.disconnect(remote),
            UiCommand::SetIdentity(ident) => self.set_identity(ident, now),
            UiCommand::SendMessage(key, msg) => self.send_message(key, msg),
            UiCommand::StartChat(cid) => {
                self.chats.create_or_update(cid);
                let mut actions: Vec<ClientAction> = Vec::new();
                actions.push(ClientAction::Ui(UiEvent::LoadedChats(self.chats.clone())));
                assert(actions_view(actions@) =~= after_ui_command(
                    old(self)@,
                    command@,
                    now,
                ).1->Ok_0);
                Ok(actions)
            },
            UiCommand::SelectChat(cid) => {
                let mut actions: Vec<ClientAction> = Vec::new();
                match self.chats.get(&cid) {
                    Some(chat) => {
                        actions.push(ClientAction::Ui(UiEvent::ChatLoaded(chat.clone())));
                    },
                    None => {
                        actions.push(ClientAction::Ui(UiEvent::ChatNotFound(cid)));
                    },
                }
                assert(actions_view(actions@) =~= after_ui_command(
                    old(self)@,
                    command@,
                    now,
                ).1->Ok_0);
                Ok(actions)
            },
            UiCommand::TrustContact(cid, trust) => {
                self.known_identities.set_trust(&cid, trust);
                let actions: Vec<ClientAction> = Vec::new();
                assert(actions_view(actions@) =~= Seq::<ClientActionView>::empty());
                Ok(actions)
            },
        }
    }

    /// Takes an event of the network actor, at the clock's reading: see
    /// `process_net_event_at`.
    pub fn process_net_event(&mut self, event: NetworkEvent) -> (res: ClientResult<
        Vec<ClientAction>,
    >)
        ensures
            exists|now: Timestamp|
                (final(self)@, answer_view(res)) == #[trigger] after_net_event(
                    old(self)@,
                    event@,
                    now,
                ),
    {
        let now = Timestamp::now();
        let ghost expected = after_net_event(self@, event@, now);
        self.process_net_event_at(event, now)
    }

    /// Takes an event of the network actor at `now` and answers with what is
    /// to be emitted: see `after_net_event`.
    pub fn process_net_event_at(&mut self, event: NetworkEvent, now: Timestamp) -> (res:
        ClientResult<Vec<ClientAction>>)
        ensures
            (final(self)@, answer_view(res)) == after_net_event(old(self)@, event@, now),
    {
        let mut actions: Vec<ClientAction> = Vec::new();
        match event {
            NetworkEvent::ListenerStopped => {
                actions.push(ClientAction::Ui(UiEvent::ListenerStopped));
            },
            NetworkEvent::ListenerFailed(_) => {
                actions.push(ClientAction::Ui(UiEvent::ListenerStopped));
            },
            NetworkEvent::ListenerStarted(addr) => {
                actions.push(ClientAction::Ui(UiEvent::ListenerStarted(addr)));
            },
            NetworkEvent::ConnectionLost(remote, key) => {
                self.forget_connections(remote);
                actions.push(ClientAction::Ui(UiEvent::ConnectionLost(remote, key)));
            },
            NetworkEvent::ConnectionFailed(remote, reason) => {
                actions.push(ClientAction::Ui(UiEvent::ConnectionFailed(remote, reason)));
            },
            NetworkEvent::ConnectionEstablished(remote, iden) => {
                let id = iden.id();
                proof {
                    ContactId::lemma_bytes(id, contact_of(iden@.verified.identity_key));
                }
                self.known_identities.create_or_update_at(&iden, now);
                self.open_connections.push((id, remote));
                actions.push(
                    ClientAction::Ui(UiEvent::SetKnownIdentities(self.known_identities.clone())),
                );
                actions.push(ClientAction::Ui(UiEvent::ConnectionEstablished(remote, id)));
            },
            NetworkEvent::MessageSent(_, _, _) => {},
            NetworkEvent::IncomingMessage(remote, key, data) => {
                return match self.incoming_message(remote, key, data) {
                    Ok(actions) => Ok(actions),
                    Err(e) => Err(ClientError::CoreError(e)),
                };
            },
            NetworkEvent::ConnectionReset(remote) => {
                self.forget_connections(remote);
                actions.push(ClientAction::Ui(UiEvent::ConnectionReset(remote)));
            },
        }
        assert(actions_view(actions@) =~= after_net_event(old(self)@, event@, now).1->Ok_0);
        Ok(actions)
    }

    /// Forwards the request to stop listening.
    pub fn listener_stop(&self) -> (res: ClientResult<Vec<ClientAction>>)
        ensures
            answer_view(res) == Ok::<Seq<ClientActionView>, ClientError>(
                seq![ClientActionView::Net(NetworkCommandView::StopListener)],
            ),
    {
        let mut actions: Vec<ClientAction> = Vec::new();
        actions.push(ClientAction::Net(NetworkCommand::StopListener));
        assert(actions_view(actions@) =~= seq![
            ClientActionView::Net(NetworkCommandView::StopListener),
        ]);
        Ok(actions)
    }

    /// Forwards the request to listen on a local address.
    pub fn listener_start(&self, addr: SocketAddress) -> (res: ClientResult<Vec<ClientAction>>)
        ensures
            answer_view(res) == Ok::<Seq<ClientActionView>, ClientError>(
                seq![ClientActionView::Net(NetworkCommandView::StartListener(addr))],
            ),
    {
        let mut actions: Vec<ClientAction> = Vec::new();
        actions.push(ClientAction::Net(NetworkCommand::StartListener(addr)));
        assert(actions_view(actions@) =~= seq![
            ClientActionView::Net(NetworkCommandView::StartListener(addr)),
        ]);
        Ok(actions)
    }

    /// Forwards the request to connect to a remote address.
    pub fn connect(&self, addr: SocketAddress) -> (res: ClientResult<Vec<ClientAction>>)
        ensures
            answer_view(res) == Ok::<Seq<ClientActionView>, ClientError>(
                seq![ClientActionView::Net(NetworkCommandView::Connect(addr))],
            ),
    {
        let mut actions: Vec<ClientAction> = Vec::new();
        actions.push(ClientAction::Net(NetworkCommand::Connect(addr)));
        assert(actions_view(actions@) =~= seq![
            ClientActionView::Net(NetworkCommandView::Connect(addr)),
        ]);
        Ok(actions)
    }

    /// Forwards the request to close the connection to a remote address.
    pub fn disconnect(&self, addr: SocketAddress) -> (res: ClientResult<Vec<ClientAction>>)
        ensures
            answer_view(res) == Ok::<Seq<ClientActionView>, ClientError>(
                seq![ClientActionView::Net(NetworkCommandView::Disconnect(addr))],
            ),
    {
        let mut actions: Vec<ClientAction> = Vec::new();
        actions.push(ClientAction::Net(NetworkCommand::Disconnect(addr)));
        assert(actions_view(actions@) =~= seq![
            ClientActionView::Net(NetworkCommandView::Disconnect(addr)),
        ]);
        Ok(actions)
    }

    /// Replaces the local user's identity. A user is entered into the trust
    /// registry as a contact of its own, observed at `now`; the identity is
    /// passed on to the network actor, and the application is told.
    pub fn set_identity(&mut self, iden: Option<UserIdentity>, now: Timestamp) -> (res:
        ClientResult<Vec<ClientAction>>)
        ensures
            (final(self)@, answer_view(res)) == after_ui_command(
                old(self)@,
                UiCommandView::SetIdentity(
                    match iden {
                        Some(user) => Some(user@),
                        None => None,
                    },
                ),
                now,
            ),
    {
        let mut actions: Vec<ClientAction> = Vec::new();
        self.user_identity = copy_of(&iden);
        match &iden {
            Some(user) => {
                self.known_identities.create_or_update_at(&user.identity, now);
                actions.push(
                    ClientAction::Ui(UiEvent::SetKnownIdentities(self.known_identities.clone())),
                );
            },
            None => {},
        }
        let announced = copy_of(&iden);
        actions.push(ClientAction::Net(NetworkCommand::SetIdentity(iden)));
        actions.push(ClientAction::Ui(UiEvent::IdentitySet(announced)));
        assert(actions_view(actions@) =~= after_ui_command(
            old(self)@,
            UiCommandView::SetIdentity(
                match iden {
                    Some(user) => Some(user@),
                    None => None,
                },
            ),
            now,
        ).1->Ok_0);
        Ok(actions)
    }

    /// Sends a message to a contact over the open connection to it. The
    /// message is sent only if its wire representation could be produced
    /// and reads back as the message.
    pub fn send_message(&self, to: ContactId, msg: Message) -> (res: ClientResult<
        Vec<ClientAction>,
    >)
        ensures
            answer_view(res) == sending(self@.open_connections, to, msg@, message_encoding(msg@))
                || wire_failure(msg@, res),
            res is Ok ==> reads_back(msg@),
    {
        let data = msg.to_wire_checked();
        self.send_encoded(to, msg, data)
    }

    /// Sends a message to a contact, given the outcome of producing its wire
    /// representation. A representation that could not be produced is
    /// reported as it is; with no open connection to the contact nothing is
    /// sent.
    pub fn send_encoded(&self, to: ContactId, msg: Message, data: CoreResult<Vec<u8>>) -> (res:
        ClientResult<Vec<ClientAction>>)
        ensures
            answer_view(res) == (match data {
                Err(e) => Err(ClientError::CoreError(e)),
                Ok(bytes) => sending(self@.open_connections, to, msg@, bytes@),
            }),
    {
        let bytes = match data {
            Ok(bytes) => bytes,
            Err(e) => {
                return Err(ClientError::CoreError(e));
            },
        };
        let remote = match self.open_connection(&to) {
            Some(remote) => remote,
            None => {
                return Err(ClientError::NoConnection(to));
            },
        };
        let mut actions: Vec<ClientAction> = Vec::new();
        actions.push(ClientAction::Net(NetworkCommand::SendMessage(remote, to, bytes)));
        actions.push(ClientAction::Ui(UiEvent::MessageSent(remote, to, msg)));
        assert(actions_view(actions@) =~= seq![
            ClientActionView::Net(NetworkCommandView::SendMessage(remote, to, bytes@)),
            ClientActionView::Ui(UiEventView::MessageSent(remote, to, msg@)),
        ]);
        Ok(actions)
    }

    /// Takes the bytes of a message that a contact sent: the message they
    /// carry is added to the chat with the contact, and the application is
    /// shown the chats. Bytes that carry no message change nothing.
    pub fn incoming_message(&mut self, remote: SocketAddress, id: ContactId, data: Vec<u8>) -> (res:
        CoreResult<Vec<ClientAction>>)
        ensures
            match message_decoding(data@) {
                Some(message) => res matches Ok(actions) && final(self)@ == (ClientDomainView {
                    chats: with_message(old(self)@.chats, id, message),
                    ..old(self)@
                }) && actions_view(actions@) == seq![
                    ClientActionView::Ui(UiEventView::LoadedChats(final(self)@.chats)),
                ],
                None => res == Err::<Vec<ClientAction>, CoreError>(CoreError::MessagePackDecode)
                    && final(self)@ == old(self)@,
            },
    {
        let msg = match Message::from_wire(data.as_slice()) {
            Ok(msg) => msg,
            Err(e) => {
                return Err(e);
            },
        };
        self.chats.add_message(id, msg);
        let mut actions: Vec<ClientAction> = Vec::new();
        actions.push(ClientAction::Ui(UiEvent::LoadedChats(self.chats.clone())));
        assert(actions_view(actions@) =~= seq![
            ClientActionView::Ui(UiEventView::LoadedChats(self@.chats)),
        ]);
        Ok(actions)
    }
}

} // verus!

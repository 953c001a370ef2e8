//! What the client actor reports to the application.

use vstd::prelude::*;
use vstd::string::StringExecFns;

use crate::chat::messages::{Message, MessageView};
use crate::chat::Chat;
use crate::client::chats::{ChatEntry, Chats};
use crate::client::known_identities::KnownIdentities;
use crate::identity::contact::ContactIdentityView;
use crate::identity::id::ContactId;
use crate::identity::user::{UserIdentity, UserIdentityView};
use crate::net::address::SocketAddress;
use crate::text::{decimal, hex_upper, push_decimal};

verus! {

/// An event that the client actor emits to the application.
#[derive(PartialEq, Eq)]
pub enum UiEvent {
    /// A connection to a contact was established.
    ConnectionEstablished(SocketAddress, ContactId),
    /// The connection to a contact is gone.
    ConnectionLost(SocketAddress, ContactId),
    /// A message of a contact arrived.
    IncomingMessage(SocketAddress, ContactId, Message),
    /// A message was handed to the network actor.
    MessageSent(SocketAddress, ContactId, Message),
    /// The transport of a connection failed.
    ConnectionReset(SocketAddress),
    /// A connection attempt was given up; holds the reason.
    ConnectionFailed(SocketAddress, String),
    /// The listener is bound to the address held.
    ListenerStarted(SocketAddress),
    /// The listener does not run.
    ListenerStopped,
    /// The local user's identity was replaced.
    IdentitySet(Option<UserIdentity>),
    /// The chats as they are now.
    LoadedChats(Chats),
    /// The chat that was selected.
    ChatLoaded(Chat),
    /// The known identities as they are now.
    SetKnownIdentities(KnownIdentities),
    /// There is no chat with the contact.
    ChatNotFound(ContactId),
}

/// What an event to the application holds.
pub enum UiEventView {
    ConnectionEstablished(SocketAddress, ContactId),
    ConnectionLost(SocketAddress, ContactId),
    IncomingMessage(SocketAddress, ContactId, MessageView),
    MessageSent(SocketAddress, ContactId, MessageView),
    ConnectionReset(SocketAddress),
    ConnectionFailed(SocketAddress, Seq<char>),
    ListenerStarted(SocketAddress),
    ListenerStopped,
    IdentitySet(Option<UserIdentityView>),
    LoadedChats(Seq<ChatEntry>),
    ChatLoaded(Seq<MessageView>),
    SetKnownIdentities(Seq<ContactIdentityView>),
    ChatNotFound(ContactId),
}

impl View for UiEvent {
    type V = UiEventView;

    open spec fn view(&self) -> UiEventView {
        match self {
            UiEvent::ConnectionEstablished(remote, id) => UiEventView::ConnectionEstablished(
                *remote,
                *id,
            ),
            UiEvent::ConnectionLost(remote, id) => UiEventView::ConnectionLost(*remote, *id),
            UiEvent::IncomingMessage(remote, id, message) => UiEventView::IncomingMessage(
                *remote,
                *id,
                message@,
            ),
            UiEvent::MessageSent(remote, id, message) => UiEventView::MessageSent(
                *remote,
                *id,
                message@,
            ),
            UiEvent::ConnectionReset(remote) => UiEventView::ConnectionReset(*remote),
            UiEvent::ConnectionFailed(remote, reason) => UiEventView::ConnectionFailed(
                *remote,
                reason@,
            ),
            UiEvent::ListenerStarted(local) => UiEventView::ListenerStarted(*local),
            UiEvent::ListenerStopped => UiEventView::ListenerStopped,
            UiEvent::IdentitySet(identity) => UiEventView::IdentitySet(
                match identity {
                    Some(user) => Some(user@),
                    None => None,
                },
            ),
            UiEvent::LoadedChats(chats) => UiEventView::LoadedChats(chats@),
            UiEvent::ChatLoaded(chat) => UiEventView::ChatLoaded(chat@),
            UiEvent::SetKnownIdentities(known) => UiEventView::SetKnownIdentities(known@),
            UiEvent::ChatNotFound(id) => UiEventView::ChatNotFound(*id),
        }
    }
}

/// The text shown for the time of the latest message of a history.
pub open spec fn latest_text(messages: Seq<MessageView>) -> Seq<char> {
    if messages.len() == 0 {
        "None"@
    } else {
        "Some("@ + messages.last().time_received.text() + ")"@
    }
}

/// The text shown for the time of the latest message of a chat.
pub fn latest_text_of(chat: &Chat) -> (text: String)
    ensures
        text@ == latest_text(chat@),
{
    match chat.latest_timestamp() {
        Some(time) => {
            let mut text = String::from_str("Some(");
            text.append(time.to_text().as_str());
            text.append(")");
            text
        },
        None => String::from_str("None"),
    }
}

impl UiEvent {
    /// The text shown for an event. A message is not shown, and of a user
    /// identity only the identifier and the username are.
    pub open spec fn text(&self) -> Seq<char> {
        match self {
            UiEvent::ConnectionEstablished(remote, id) => {
                "Connection established with "@
                    + remote.text()
                    + " ("@
                    + hex_upper(id.bytes())
                    + ")"@
            },
            UiEvent::ConnectionLost(remote, id) => {
                "Peer "@
                    + remote.text()
                    + " ("@
                    + hex_upper(id.bytes())
                    + ") has disconnected"@
            },
            UiEvent::IncomingMessage(remote, id, _) => {
                "Message received from "@
                    + remote.text()
                    + " ("@
                    + hex_upper(id.bytes())
                    + ")"@
            },
            UiEvent::MessageSent(remote, id, _) => {
                "Message sent to "@
                    + remote.text()
                    + " ("@
                    + hex_upper(id.bytes())
                    + ")"@
            },
            UiEvent::ConnectionFailed(remote, reason) => {
                "Connection to "@
                    + remote.text()
                    + " attempt was aborted: "@
                    + reason@
            },
            UiEvent::ListenerStarted(local) => {
                "Listener for incoming connection was started on "@
                    + local.text()
            },
            UiEvent::ListenerStopped => "Listener for incoming connection was stopped"@,
            UiEvent::ConnectionReset(remote) => {
                "Bad connection awards from "@
                    + remote.text()
                    + " was aborted"@
            },
            UiEvent::IdentitySet(Some(user)) => {
                "working copy of user identity was set to "@
                    + hex_upper(user.identity@.verified.identity_key)
                    + " ("@
                    + user.identity@.verified.username
                    + ")"@
            },
            UiEvent::IdentitySet(None) => "working copy of user identity was set to nothing"@,
            UiEvent::ChatLoaded(chat) => {
                "Chat was loaded (last msg at "@
                    + latest_text(chat@)
                    + ")"@
            },
            UiEvent::LoadedChats(chats) => "Loaded "@ + decimal(chats@.len() as nat) + " chats"@,
            UiEvent::SetKnownIdentities(known) => {
                "Loaded "@
                    + decimal(known@.len() as nat)
                    + " known identities"@
            },
            UiEvent::ChatNotFound(id) => {
                "Chat with id "@
                    + hex_upper(id.bytes())
                    + " does not exist"@
            },
        }
    }

    /// The text shown for this event.
    pub fn to_text(&self) -> (text: String)
        ensures
            text@ == self.text(),
    {
        let mut text = String::new();
        match self {
            UiEvent::ConnectionEstablished(remote, id) => {
                text.append("Connection established with ");
                remote.write_to(&mut text);
                text.append(" (");
                text.append(id.to_text().as_str());
                text.append(")");
            },
            UiEvent::ConnectionLost(remote, id) => {
                text.append("Peer ");
                remote.write_to(&mut text);
                text.append(" (");
                text.append(id.to_text().as_str());
                text.append(") has disconnected");
            },
            UiEvent::IncomingMessage(remote, id, _) => {
                text.append("Message received from ");
                remote.write_to(&mut text);
                text.append(" (");
                text.append(id.to_text().as_str());
                text.append(")");
            },
            UiEvent::MessageSent(remote, id, _) => {
                text.append("Message sent to ");
                remote.write_to(&mut text);
                text.append(" (");
                text.append(id.to_text().as_str());
                text.append(")");
            },
            UiEvent::ConnectionFailed(remote, reason) => {
                text.append("Connection to ");
                remote.write_to(&mut text);
                text.append(" attempt was aborted: ");
                text.append(reason.as_str());
            },
            UiEvent::ListenerStarted(local) => {
                text.append("Listener for incoming connection was started on ");
                local.write_to(&mut text);
            },
            UiEvent::ListenerStopped => {
                text.append("Listener for incoming connection was stopped");
            },
            UiEvent::ConnectionReset(remote) => {
                text.append("Bad connection awards from ");
                remote.write_to(&mut text);
                text.append(" was aborted");
            },
            UiEvent::IdentitySet(Some(user)) => {
                text.append("working copy of user identity was set to ");
                text.append(user.identity.id().to_text().as_str());
                text.append(" (");
                text.append(user.identity.username());
                text.append(")");
            },
            UiEvent::IdentitySet(None) => {
                text.append("working copy of user identity was set to nothing");
            },
            UiEvent::ChatLoaded(chat) => {
                text.append("Chat was loaded (last msg at ");
                text.append(latest_text_of(chat).as_str());
                text.append(")");
            },
            UiEvent::LoadedChats(chats) => {
                text.append("Loaded ");
                push_decimal(&mut text, chats.len() as u64);
                text.append(" chats");
            },
            UiEvent::SetKnownIdentities(known) => {
                text.append("Loaded ");
                push_decimal(&mut text, known.len() as u64);
                text.append(" known identities");
            },
            UiEvent::ChatNotFound(id) => {
                text.append("Chat with id ");
                text.append(id.to_text().as_str());
                text.append(" does not exist");
            },
        }
        assert(text@ =~= self.text());
        text
    }
}

} // verus!

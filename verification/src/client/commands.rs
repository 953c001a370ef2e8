//! What the application can tell the client actor to do.

use vstd::prelude::*;
use vstd::string::StringExecFns;

use crate::chat::messages::{Message, MessageView};
use crate::identity::id::ContactId;
use crate::identity::trust::Trust;
use crate::identity::user::{UserIdentity, UserIdentityView};
use crate::net::address::SocketAddress;
use crate::text::hex_upper;

verus! {

/// A command of the application to the client actor.
#[derive(PartialEq, Eq)]
pub enum UiCommand {
    /// Replace the local user's identity.
    SetIdentity(Option<UserIdentity>),
    /// Send a message to a contact.
    SendMessage(ContactId, Message),
    /// Open the chat with a contact.
    StartChat(ContactId),
    /// Show the chat with a contact.
    SelectChat(ContactId),
    /// Record the operator's decision on a contact.
    TrustContact(ContactId, Trust),
    /// Listen for incoming connections on the local address.
    StartListener(SocketAddress),
    /// Stop listening for incoming connections.
    StopListener,
    /// Connect to the remote address.
    Connect(SocketAddress),
    /// Close the connection to the remote address.
    Disconnect(SocketAddress),
}

/// What a command of the application holds.
pub enum UiCommandView {
    SetIdentity(Option<UserIdentityView>),
    SendMessage(ContactId, MessageView),
    StartChat(ContactId),
    SelectChat(ContactId),
    TrustContact(ContactId, Trust),
    StartListener(SocketAddress),
    StopListener,
    Connect(SocketAddress),
    Disconnect(SocketAddress),
}

impl View for UiCommand {
    type V = UiCommandView;

    open spec fn view(&self) -> UiCommandView {
        match self {
            UiCommand::SetIdentity(identity) => UiCommandView::SetIdentity(
                match identity {
                    Some(user) => Some(user@),
                    None => None,
                },
            ),
            UiCommand::SendMessage(id, message) => UiCommandView::SendMessage(*id, message@),
            UiCommand::StartChat(id) => UiCommandView::StartChat(*id),
            UiCommand::SelectChat(id) => UiCommandView::SelectChat(*id),
            UiCommand::TrustContact(id, trust) => UiCommandView::TrustContact(*id, *trust),
            UiCommand::StartListener(local) => UiCommandView::StartListener(*local),
            UiCommand::StopListener => UiCommandView::StopListener,
            UiCommand::Connect(remote) => UiCommandView::Connect(*remote),
            UiCommand::Disconnect(remote) => UiCommandView::Disconnect(*remote),
        }
    }
}

impl UiCommand {
    /// The text shown for a command. A message is not shown, and of a user
    /// identity only the identifier and the username are.
    pub open spec fn text(&self) -> Seq<char> {
        match self {
            UiCommand::Connect(remote) => "Connect to "@ + remote.text(),
            UiCommand::Disconnect(remote) => "Disconnect from "@ + remote.text(),
            UiCommand::StartChat(id) => "Create new chat with "@ + hex_upper(id.bytes()),
            UiCommand::SelectChat(id) => "Select chat with "@ + hex_upper(id.bytes()),
            UiCommand::SendMessage(id, _) => "Send Message to "@ + hex_upper(id.bytes()),
            UiCommand::TrustContact(id, trust) => {
                "Set trust of "@
                    + hex_upper(id.bytes())
                    + " to "@
                    + trust.name()
            },
            UiCommand::StartListener(local) => {
                "Start listening for incoming connection on "@
                    + local.text()
            },
            UiCommand::StopListener => "Stop listening for incoming connections"@,
            UiCommand::SetIdentity(Some(user)) => {
                "Set working copy of user identity to "@
                    + hex_upper(user.identity@.verified.identity_key)
                    + " ("@
                    + user.identity@.verified.username
                    + ")"@
            },
            UiCommand::SetIdentity(None) => "Set working copy of user identity to <None>"@,
        }
    }

    /// The text shown for this command.
    pub fn to_text(&self) -> (text: String)
        ensures
            text@ == self.text(),
    {
        let mut text = String::new();
        match self {
            UiCommand::Connect(remote) => {
                text.append("Connect to ");
                remote.write_to(&mut text);
            },
            UiCommand::Disconnect(remote) => {
                text.append("Disconnect from ");
                remote.write_to(&mut text);
            },
            UiCommand::StartChat(id) => {
                text.append("Create new chat with ");
                text.append(id.to_text().as_str());
            },
            UiCommand::SelectChat(id) => {
                text.append("Select chat with ");
                text.append(id.to_text().as_str());
            },
            UiCommand::SendMessage(id, _) => {
                text.append("Send Message to ");
                text.append(id.to_text().as_str());
            },
            UiCommand::TrustContact(id, trust) => {
                text.append("Set trust of ");
                text.append(id.to_text().as_str());
                text.append(" to ");
                text.append(trust.to_text().as_str());
            },
            UiCommand::StartListener(local) => {
                text.append("Start listening for incoming connection on ");
                local.write_to(&mut text);
            },
            UiCommand::StopListener => {
                text.append("Stop listening for incoming connections");
            },
            UiCommand::SetIdentity(Some(user)) => {
                text.append("Set working copy of user identity to ");
                text.append(user.identity.id().to_text().as_str());
                text.append(" (");
                text.append(user.identity.username());
                text.append(")");
            },
            UiCommand::SetIdentity(None) => {
                text.append("Set working copy of user identity to <None>");
            },
        }
        assert(text@ =~= self.text());
        text
    }
}

} // verus!

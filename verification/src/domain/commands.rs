//! What the network actor can be told to do.

use vstd::prelude::*;
use vstd::string::StringExecFns;

use crate::identity::id::ContactId;
use crate::identity::user::{UserIdentity, UserIdentityView};
use crate::net::address::SocketAddress;
use crate::text::hex_upper;

verus! {

/// A command to the network actor.
#[derive(PartialEq, Eq)]
pub enum NetworkCommand {
    /// Connect to the remote address.
    Connect(SocketAddress),
    /// Close the connection to the remote address.
    Disconnect(SocketAddress),
    /// Send a payload over the connection to the remote address.
    SendMessage(SocketAddress, ContactId, Vec<u8>),
    /// Listen for incoming connections. The address is the local address on
    /// which to listen, not a remote address.
    StartListener(SocketAddress),
    /// Stop listening for incoming connections.
    StopListener,
    /// Replace the working copy of the local user's identity.
    SetIdentity(Option<UserIdentity>),
}

/// What a network command holds.
pub enum NetworkCommandView {
    Connect(SocketAddress),
    Disconnect(SocketAddress),
    SendMessage(SocketAddress, ContactId, Seq<u8>),
    StartListener(SocketAddress),
    StopListener,
    SetIdentity(Option<UserIdentityView>),
}

impl View for NetworkCommand {
    type V = NetworkCommandView;

    open spec fn view(&self) -> NetworkCommandView {
        match self {
            NetworkCommand::Connect(remote) => NetworkCommandView::Connect(*remote),
            NetworkCommand::Disconnect(remote) => NetworkCommandView::Disconnect(*remote),
            NetworkCommand::SendMessage(remote, id, payload) => NetworkCommandView::SendMessage(
                *remote,
                *id,
                payload@,
            ),
            NetworkCommand::StartListener(local) => NetworkCommandView::StartListener(*local),
            NetworkCommand::StopListener => NetworkCommandView::StopListener,
            NetworkCommand::SetIdentity(identity) => NetworkCommandView::SetIdentity(
                match identity {
                    Some(user) => Some(user@),
                    None => None,
                },
            ),
        }
    }
}

impl NetworkCommand {
    /// The text shown for a command. A payload is not shown, and of a user
    /// identity only the identifier and the username are.
    pub open spec fn text(&self) -> Seq<char> {
        match self {
            NetworkCommand::Connect(remote) => "Connect to "@ + remote.text(),
            NetworkCommand::Disconnect(remote) => "Disconnect from "@ + remote.text(),
            NetworkCommand::SendMessage(remote, id, _) => {
                "Send Message to "@
                    + remote.text()
                    + ": "@
                    + hex_upper(id.bytes())
            },
            NetworkCommand::StartListener(local) => {
                "Start listening for incoming connection on "@
                    + local.text()
            },
            NetworkCommand::StopListener => "Stop listening for incoming connections"@,
            NetworkCommand::SetIdentity(Some(user)) => {
                "Set working copy of user identity to "@
                    + hex_upper(user.identity@.verified.identity_key)
                    + " ("@
                    + user.identity@.verified.username
                    + ")"@
            },
            NetworkCommand::SetIdentity(None) => "Set working copy of user identity to <None>"@,
        }
    }

    /// The text shown for this command.
    pub fn to_text(&self) -> (text: String)
        ensures
            text@ == self.text(),
    {
        let mut text = String::new();
        match self {
            NetworkCommand::Connect(remote) => {
                text.append("Connect to ");
                remote.write_to(&mut text);
            },
            NetworkCommand::Disconnect(remote) => {
                text.append("Disconnect from ");
                remote.write_to(&mut text);
            },
            NetworkCommand::SendMessage(remote, id, _) => {
                text.append("Send Message to ");
                remote.write_to(&mut text);
                text.append(": ");
                text.append(id.to_text().as_str());
            },
            NetworkCommand::StartListener(local) => {
                text.append("Start listening for incoming connection on ");
                local.write_to(&mut text);
            },
            NetworkCommand::StopListener => {
                text.append("Stop listening for incoming connections");
            },
            NetworkCommand::SetIdentity(Some(user)) => {
                text.append("Set working copy of user identity to ");
                text.append(user.identity.id().to_text().as_str());
                text.append(" (");
                text.append(user.identity.username());
                text.append(")");
            },
            NetworkCommand::SetIdentity(None) => {
                text.append("Set working copy of user identity to <None>");
            },
        }
        assert(text@ =~= self.text());
        text
    }
}

} // verus!

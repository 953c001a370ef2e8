//! What the network actor reports.

use vstd::prelude::*;
use vstd::string::StringExecFns;

use crate::error::CoreError;
use crate::identity::id::ContactId;
use crate::identity::{Identity, IdentityView};
use crate::net::address::SocketAddress;
use crate::text::hex_upper;

verus! {

/// An event that the network actor emits.
#[derive(Debug, PartialEq, Eq)]
pub enum NetworkEvent {
    /// A connection was established; holds the peer's authenticated document.
    ConnectionEstablished(SocketAddress, Identity),
    /// The connection to a peer is gone.
    ConnectionLost(SocketAddress, ContactId),
    /// A payload arrived from a peer.
    IncomingMessage(SocketAddress, ContactId, Vec<u8>),
    /// A payload was handed to the transport.
    MessageSent(SocketAddress, ContactId, Vec<u8>),
    /// The transport of a connection failed.
    ConnectionReset(SocketAddress),
    /// A connection attempt was given up; holds the reason.
    ConnectionFailed(SocketAddress, String),
    /// The listener is bound to the address held.
    ListenerStarted(SocketAddress),
    /// The listener could not be started.
    ListenerFailed(CoreError),
    /// The listener does not run.
    ListenerStopped,
}

/// What a network event holds.
pub enum NetworkEventView {
    ConnectionEstablished(SocketAddress, IdentityView),
    ConnectionLost(SocketAddress, ContactId),
    IncomingMessage(SocketAddress, ContactId, Seq<u8>),
    MessageSent(SocketAddress, ContactId, Seq<u8>),
    ConnectionReset(SocketAddress),
    ConnectionFailed(SocketAddress, Seq<char>),
    ListenerStarted(SocketAddress),
    ListenerFailed(CoreError),
    ListenerStopped,
}

impl View for NetworkEvent {
    type V = NetworkEventView;

    open spec fn view(&self) -> NetworkEventView {
        match self {
            NetworkEvent::ConnectionEstablished(remote, peer) => {
                NetworkEventView::ConnectionEstablished(*remote, peer@)
            },
            NetworkEvent::ConnectionLost(remote, id) => NetworkEventView::ConnectionLost(
                *remote,
                *id,
            ),
            NetworkEvent::IncomingMessage(remote, id, payload) => NetworkEventView::IncomingMessage(
                *remote,
                *id,
                payload@,
            ),
            NetworkEvent::MessageSent(remote, id, payload) => NetworkEventView::MessageSent(
                *remote,
                *id,
                payload@,
            ),
            NetworkEvent::ConnectionReset(remote) => NetworkEventView::ConnectionReset(*remote),
            NetworkEvent::ConnectionFailed(remote, reason) => NetworkEventView::ConnectionFailed(
                *remote,
                reason@,
            ),
            NetworkEvent::ListenerStarted(local) => NetworkEventView::ListenerStarted(*local),
            NetworkEvent::ListenerFailed(error) => NetworkEventView::ListenerFailed(*error),
            NetworkEvent::ListenerStopped => NetworkEventView::ListenerStopped,
        }
    }
}

impl NetworkEvent {
    /// The text shown for an event. A payload is not shown.
    pub open spec fn text(&self) -> Seq<char> {
        match self {
            NetworkEvent::ConnectionEstablished(remote, peer) => {
                "Connection established with "@
                    + remote.text()
                    + " ("@
                    + hex_upper(peer@.verified.identity_key)
                    + ")"@
            },
            NetworkEvent::ConnectionLost(remote, id) => {
                "Peer "@
                    + remote.text()
                    + " ("@
                    + hex_upper(id.bytes())
                    + ") has disconnected"@
            },
            NetworkEvent::IncomingMessage(remote, id, _) => {
                "Message received from "@
                    + remote.text()
                    + " ("@
                    + hex_upper(id.bytes())
                    + ")"@
            },
            NetworkEvent::MessageSent(remote, id, _) => {
                "Message sent to "@
                    + remote.text()
                    + " ("@
                    + hex_upper(id.bytes())
                    + ")"@
            },
            NetworkEvent::ConnectionFailed(remote, reason) => {
                "Connection to "@
                    + remote.text()
                    + " attempt was aborted: "@
                    + reason@
            },
            NetworkEvent::ListenerStarted(local) => {
                "Listener for incoming connection was started on "@
                    + local.text()
            },
            NetworkEvent::ListenerStopped => "Listener for incoming connection was stopped"@,
            NetworkEvent::ConnectionReset(remote) => {
                "Bad connection awards from "@
                    + remote.text()
                    + " was aborted"@
            },
            NetworkEvent::ListenerFailed(error) => "Listener failed: "@ + error.text(),
        }
    }

    /// The text shown for this event.
    pub fn to_text(&self) -> (text: String)
        ensures
            text@ == self.text(),
    {
        let mut text = String::new();
        match self {
            NetworkEvent::ConnectionEstablished(remote, peer) => {
                text.append("Connection established with ");
                remote.write_to(&mut text);
                text.append(" (");
                text.append(peer.id().to_text().as_str());
                text.append(")");
            },
            NetworkEvent::ConnectionLost(remote, id) => {
                text.append("Peer ");
                remote.write_to(&mut text);
                text.append(" (");
                text.append(id.to_text().as_str());
                text.append(") has disconnected");
            },
            NetworkEvent::IncomingMessage(remote, id, _) => {
                text.append("Message received from ");
                remote.write_to(&mut text);
                text.append(" (");
                text.append(id.to_text().as_str());
                text.append(")");
            },
            NetworkEvent::MessageSent(remote, id, _) => {
                text.append("Message sent to ");
                remote.write_to(&mut text);
                text.append(" (");
                text.append(id.to_text().as_str());
                text.append(")");
            },
            NetworkEvent::ConnectionFailed(remote, reason) => {
                text.append("Connection to ");
                remote.write_to(&mut text);
                text.append(" attempt was aborted: ");
                text.append(reason.as_str());
            },
            NetworkEvent::ListenerStarted(local) => {
                text.append("Listener for incoming connection was started on ");
                local.write_to(&mut text);
            },
            NetworkEvent::ListenerStopped => {
                text.append("Listener for incoming connection was stopped");
            },
            NetworkEvent::ConnectionReset(remote) => {
                text.append("Bad connection awards from ");
                remote.write_to(&mut text);
                text.append(" was aborted");
            },
            NetworkEvent::ListenerFailed(error) => {
                text.append("Listener failed: ");
                text.append(error.to_text().as_str());
            },
        }
        assert(text@ =~= self.text());
        text
    }
}

} // verus!

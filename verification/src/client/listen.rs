//! What the application shows of the listener.

use vstd::prelude::*;
use vstd::string::StringExecFns;

use crate::client::error::ClientError;
use crate::client::events::UiEvent;
use crate::net::address::SocketAddress;

verus! {

/// The state of the listener as the application shows it.
#[derive(Debug, PartialEq, Eq)]
pub enum ListenerStatus {
    /// No listener runs.
    Stopped,
    /// A listener was asked for.
    Starting,
    /// The listener is bound to the address held.
    Active(SocketAddress),
    /// The listener failed.
    Error(ClientError),
}

impl Default for ListenerStatus {
    fn default() -> (status: ListenerStatus)
        ensures
            status == ListenerStatus::Stopped,
    {
        ListenerStatus::Stopped
    }
}

impl ListenerStatus {
    /// The text shown for a status.
    pub open spec fn text(&self) -> Seq<char> {
        match self {
            ListenerStatus::Stopped => "Listener is not active"@,
            ListenerStatus::Starting => "Listener is starting"@,
            ListenerStatus::Active(local) => "Listener is listening on "@ + local.text(),
            ListenerStatus::Error(error) => "Listener failed: "@ + error.text(),
        }
    }

    /// The text shown for this status.
    pub fn to_text(&self) -> (text: String)
        ensures
            text@ == self.text(),
    {
        let mut text = String::new();
        match self {
            ListenerStatus::Stopped => {
                text.append("Listener is not active");
            },
            ListenerStatus::Starting => {
                text.append("Listener is starting");
            },
            ListenerStatus::Active(local) => {
                text.append("Listener is listening on ");
                local.write_to(&mut text);
            },
            ListenerStatus::Error(error) => {
                text.append("Listener failed: ");
                text.append(error.to_text().as_str());
            },
        }
        assert(text@ =~= self.text());
        text
    }

    /// The status after an event of the client actor: a listener that was
    /// started is active on its address, one that was stopped is stopped, and
    /// no other event touches the status.
    pub fn after_event(self, event: &UiEvent) -> (status: ListenerStatus)
        ensures
            status == (match event {
                UiEvent::ListenerStarted(local) => ListenerStatus::Active(*local),
                UiEvent::ListenerStopped => ListenerStatus::Stopped,
                _ => self,
            }),
    {
        match event {
            UiEvent::ListenerStarted(local) => ListenerStatus::Active(*local),
            UiEvent::ListenerStopped => ListenerStatus::Stopped,
            _ => self,
        }
    }
}

} // verus!

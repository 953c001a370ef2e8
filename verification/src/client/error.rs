//! Error values of the client actor.

use vstd::prelude::*;
use vstd::string::StringExecFns;

use crate::error::CoreError;
use crate::identity::id::ContactId;
use crate::text::hex_upper;

verus! {

/// What can go wrong in the client actor.
#[derive(Debug, Clone, PartialEq, Eq)]
pub enum ClientError {
    /// A UI event could not be sent over its channel.
    ChannelSendUiEvent,
    /// A UI command could not be sent over its channel.
    ChannelSendUiCmd,
    /// A failure of the core.
    CoreError(CoreError),
    /// No connection is open to the contact, so nothing can be sent to it.
    NoConnection(ContactId),
}

pub type ClientResult<T> = Result<T, ClientError>;

impl ClientError {
    /// Wraps a failure of the core.
    pub fn from_core(value: CoreError) -> (error: ClientError)
        ensures
            error == ClientError::CoreError(value),
    {
        ClientError::CoreError(value)
    }
}

impl ClientError {
    /// The message of an error.
    pub open spec fn text(&self) -> Seq<char> {
        match self {
            ClientError::ChannelSendUiEvent => {
                "Could send a ui event to the over the local async channel"@
            },
            ClientError::ChannelSendUiCmd => {
                "Could send a ui command to the over the local async channel"@
            },
            ClientError::CoreError(error) => error.text(),
            ClientError::NoConnection(id) => {
                "No connection exists to "@
                    + hex_upper(id.bytes())
                    + ". Can't send message to them!"@
            },
        }
    }

    /// The message of this error.
    pub fn to_text(&self) -> (text: String)
        ensures
            text@ == self.text(),
    {
        let mut text = String::new();
        match self {
            ClientError::ChannelSendUiEvent => {
                text.append("Could send a ui event to the over the local async channel");
            },
            ClientError::ChannelSendUiCmd => {
                text.append("Could send a ui command to the over the local async channel");
            },
            ClientError::CoreError(error) => {
                text.append(error.to_text().as_str());
            },
            ClientError::NoConnection(id) => {
                text.append("No connection exists to ");
                text.append(id.to_text().as_str());
                text.append(". Can't send message to them!");
            },
        }
        assert(text@ =~= self.text());
        text
    }
}

} // verus!

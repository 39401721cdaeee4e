//! Why a connection, or the relay as a whole, stopped.

use vstd::prelude::*;

verus! {

/// The failures the relay tells apart.
#[derive(Debug, Clone, Copy, PartialEq, Eq, Structural)]
pub enum ChatError {
    /// An inbound payload was neither a structured message nor `sender:content`.
    MalformedMessage,
    /// A connection sent nothing for the whole idle period.
    ReadTimeout,
    /// Reading from a connection failed.
    ReadFailed,
    /// Writing to a connection failed.
    WriteFailed,
    /// The hub has no subscriber left to publish to.
    HubClosed,
    /// A message could not be put into its wire form.
    Encoding,
    /// The listening socket can no longer accept.
    ListenerFailed,
}

impl ChatError {
    /// The text `message` gives for the error.
    pub open spec fn text(self) -> Seq<char> {
        match self {
            ChatError::MalformedMessage => "Invalid message format"@,
            ChatError::ReadTimeout => "Read timeout"@,
            ChatError::ReadFailed => "Read failed"@,
            ChatError::WriteFailed => "Write failed"@,
            ChatError::HubClosed => "Broadcast channel closed"@,
            ChatError::Encoding => "Message could not be encoded"@,
            ChatError::ListenerFailed => "Listener failed"@,
        }
    }

    /// A short description for logs.
    pub fn message(&self) -> (description: String)
        ensures
            description@ == self.text(),
    {
        match self {
            ChatError::MalformedMessage => "Invalid message format".to_string(),
            ChatError::ReadTimeout => "Read timeout".to_string(),
            ChatError::ReadFailed => "Read failed".to_string(),
            ChatError::WriteFailed => "Write failed".to_string(),
            ChatError::HubClosed => "Broadcast channel closed".to_string(),
            ChatError::Encoding => "Message could not be encoded".to_string(),
            ChatError::ListenerFailed => "Listener failed".to_string(),
        }
    }
}

} // verus!

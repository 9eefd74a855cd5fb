//! The ways a node run can fail. Every one of them ends the process.
use vstd::prelude::*;

verus! {

#[derive(Debug, Clone, Copy, PartialEq, Eq, Structural)]
pub enum NodeError {
    /// The input closed before its first line.
    MissingInit,
    /// The first line is not a well-formed `init` message.
    UnexpectedFirstMessage,
    /// A line after the handshake does not decode as a message.
    MalformedEnvelope,
    /// Writing a reply line failed.
    OutputWriteFailed,
    /// The handler could not answer a request. There is no recovery: the
    /// node is meant for a single protocol and stops on anything else.
    HandlerFailure,
}

impl NodeError {
    /// A short description, for diagnostics.
    pub fn describe(&self) -> (r: &'static str) {
        match self {
            NodeError::MissingInit => "input closed before the init message",
            NodeError::UnexpectedFirstMessage => "first message is not a valid init message",
            NodeError::MalformedEnvelope => "a message could not be decoded",
            NodeError::OutputWriteFailed => "a reply could not be written",
            NodeError::HandlerFailure => "the handler could not answer a message",
        }
    }
}

} // verus!

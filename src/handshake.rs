//! The one-time `init` / `init_ok` exchange that opens every session.
use vstd::prelude::*;
use crate::envelope::Message;
use crate::error::NodeError;
use crate::event::Line;

verus! {

/// The fields of an `init` request. They are accepted and not retained.
#[derive(Debug, Clone)]
pub struct Init {
    pub node_id: String,
    pub node_ids: Vec<String>,
}

/// The only payload the runtime itself understands.
#[derive(Debug, Clone)]
pub enum InitPayload {
    Init(Init),
    InitOk,
}

/// What the handshake owes for the first input line: `None` when the input
/// closed before any line.
pub open spec fn handshake_ok(first: Option<Line<InitPayload>>) -> bool {
    first matches Some(Line::Decoded(m)) && m.body.payload is Init
}

/// The error the handshake reports for a first line it cannot accept.
pub open spec fn handshake_error(first: Option<Line<InitPayload>>) -> NodeError {
    if first is None {
        NodeError::MissingInit
    } else {
        NodeError::UnexpectedFirstMessage
    }
}

/// `reply` acknowledges the `init` request `request`.
pub open spec fn acknowledges(reply: Message<InitPayload>, request: Message<InitPayload>) -> bool {
    reply.is_reply_to(request) && reply.body.payload is InitOk
}

/// Checks the first input line and builds the `init_ok` reply to it.
pub fn handshake(first: Option<Line<InitPayload>>) -> (r: Result<Message<InitPayload>, NodeError>)
    ensures
        r is Ok <==> handshake_ok(first),
        r matches Ok(reply) ==> acknowledges(reply, first->0->Decoded_0),
        r matches Err(e) ==> e == handshake_error(first),
{
    match first {
        None => Err(NodeError::MissingInit),
        Some(Line::Malformed) => Err(NodeError::UnexpectedFirstMessage),
        Some(Line::Decoded(request)) => match request.body.payload {
            InitPayload::Init(_) => Ok(request.reply(InitPayload::InitOk)),
            InitPayload::InitOk => Err(NodeError::UnexpectedFirstMessage),
        },
    }
}

} // verus!

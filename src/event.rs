//! What the line reader hands to the dispatch loop.
use vstd::prelude::*;
use crate::envelope::Message;
use crate::error::NodeError;

verus! {

/// One input line, after decoding.
#[derive(Debug, Clone)]
pub enum Line<Payload> {
    Decoded(Message<Payload>),
    /// The line is not valid JSON, or lacks the envelope's fields.
    Malformed,
}

/// A signal from the line reader to the dispatch loop.
#[derive(Debug, Clone)]
pub enum Event<Payload> {
    Message(Message<Payload>),
    /// The input stream closed.
    EOF,
}

/// The reader's decision on its next input: `None` when the input closed.
/// `Ok` is the event to send (after `EOF` the reader stops); `Err` ends the
/// reader with the error that the dispatch side collects when it joins.
pub fn read_step<Payload>(line: Option<Line<Payload>>) -> (r: Result<Event<Payload>, NodeError>)
    ensures
        match line {
            None => r matches Ok(Event::EOF),
            Some(Line::Malformed) => r == Err::<Event<Payload>, NodeError>(
                NodeError::MalformedEnvelope,
            ),
            Some(Line::Decoded(m)) => r == Ok::<Event<Payload>, NodeError>(Event::Message(m)),
        },
{
    match line {
        None => Ok(Event::EOF),
        Some(Line::Malformed) => Err(NodeError::MalformedEnvelope),
        Some(Line::Decoded(m)) => Ok(Event::Message(m)),
    }
}

} // verus!

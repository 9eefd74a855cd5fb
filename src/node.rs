//! The node: a handler for application payloads and the dispatch logic
//! that turns reader events into replies.
use vstd::prelude::*;
use crate::envelope::Message;
use crate::error::NodeError;
use crate::event::{read_step, Event, Line};
use crate::handshake::{acknowledges, handshake, handshake_error, handshake_ok, InitPayload};

verus! {

/// The application's computation: the reply payload for a request.
///
/// `handle` runs synchronously on the dispatch loop. When it returns `None`
/// the node cannot answer the request, and the whole run stops with
/// [`NodeError::HandlerFailure`]: this runtime has no recovery for that.
/// A request the handler does not accept is always refused; one it accepts
/// is answered, unless outside work that the handler relies on fails (only
/// handlers without `always_answers` may refuse on that account).
pub trait Handler {
    type Payload;

    /// The handler can answer `request`.
    spec fn accepts(&self, request: Message<Self::Payload>) -> bool;

    /// The handler answers every request it accepts: nothing outside the
    /// request can make it refuse.
    spec fn always_answers(&self) -> bool;

    /// `reply` is an answer the handler may give to `request`.
    spec fn answers(&self, request: Message<Self::Payload>, reply: Self::Payload) -> bool;

    fn handle(&self, request: &Message<Self::Payload>) -> (r: Option<Self::Payload>)
        ensures
            !self.accepts(*request) ==> r is None,
            self.accepts(*request) && self.always_answers() ==> r is Some,
            r matches Some(p) ==> self.answers(*request, p),
    ;
}

/// Everything a run over fully read input produced: the handshake reply (if
/// the handshake succeeded), the replies in the order written, and how the
/// run ended.
#[derive(Debug)]
pub struct Transcript<Payload> {
    pub init_reply: Option<Message<InitPayload>>,
    pub replies: Vec<Message<Payload>>,
    pub outcome: Result<(), NodeError>,
}

/// A protocol node, built around its handler.
pub struct RpcNode<H> {
    pub handler: H,
}

impl<H: Handler> RpcNode<H> {
    pub fn new(handler: H) -> (r: Self)
        ensures
            r.handler == handler,
    {
        RpcNode { handler }
    }

    /// `reply` is this node's answer to `request`.
    pub open spec fn serves(&self, request: Message<H::Payload>, reply: Message<H::Payload>) -> bool {
        &&& self.handler.accepts(request)
        &&& reply.is_reply_to(request)
        &&& self.handler.answers(request, reply.body.payload)
    }

    /// The line decoded to a request that the handler accepts.
    pub open spec fn line_ok(&self, line: Line<H::Payload>) -> bool {
        line matches Line::Decoded(m) && self.handler.accepts(m)
    }

    /// `reply` answers the request on `line`.
    pub open spec fn line_served(&self, line: Line<H::Payload>, reply: Message<H::Payload>) -> bool {
        line matches Line::Decoded(m) && self.serves(m, reply)
    }

    /// How a run ends once `n` of `lines` were answered.
    pub open spec fn stop_outcome(&self, lines: Seq<Line<H::Payload>>, n: int) -> Result<(), NodeError> {
        if n >= lines.len() {
            Ok(())
        } else if lines[n] is Malformed {
            Err(NodeError::MalformedEnvelope)
        } else {
            Err(NodeError::HandlerFailure)
        }
    }

    /// The dispatch loop, given the lines after the handshake, wrote
    /// `replies` and ended with `outcome`: each line is answered in turn,
    /// until the first one that is malformed or that the handler refuses.
    /// A handler that always answers refuses only what it does not accept.
    pub open spec fn dispatched(
        &self,
        lines: Seq<Line<H::Payload>>,
        replies: Seq<Message<H::Payload>>,
        outcome: Result<(), NodeError>,
    ) -> bool {
        &&& replies.len() <= lines.len()
        &&& forall|i: int| 0 <= i < replies.len() ==> self.line_served(lines[i], #[trigger] replies[i])
        &&& replies.len() < lines.len() && self.handler.always_answers() ==> !self.line_ok(
            lines[replies.len() as int],
        )
        &&& outcome == self.stop_outcome(lines, replies.len() as int)
    }

    /// A whole run over `first` and then `lines` yields `t`.
    pub open spec fn produces(
        &self,
        first: Option<Line<InitPayload>>,
        lines: Seq<Line<H::Payload>>,
        t: Transcript<H::Payload>,
    ) -> bool {
        if handshake_ok(first) {
            &&& t.init_reply matches Some(ack) && acknowledges(ack, first->0->Decoded_0)
            &&& self.dispatched(lines, t.replies@, t.outcome)
        } else {
            &&& t.init_reply is None
            &&& t.replies@.len() == 0
            &&& t.outcome == Err::<(), NodeError>(handshake_error(first))
        }
    }

    /// The dispatch loop's response to one event: `Ok(Some(reply))` is a line
    /// to write, `Ok(None)` ends the loop normally.
    pub fn on_event(&self, event: Event<H::Payload>) -> (r: Result<Option<Message<H::Payload>>, NodeError>)
        ensures
            match event {
                Event::EOF => r matches Ok(None),
                Event::Message(m) => match r {
                    Ok(Some(reply)) => self.serves(m, reply),
                    Ok(None) => false,
                    Err(e) => e == NodeError::HandlerFailure && !(self.handler.accepts(m)
                        && self.handler.always_answers()),
                },
            },
    {
        match event {
            Event::EOF => Ok(None),
            Event::Message(request) => match self.handler.handle(&request) {
                Some(payload) => Ok(Some(request.reply(payload))),
                None => Err(NodeError::HandlerFailure),
            },
        }
    }

    /// A complete run over input that has already been read and decoded:
    /// the first line, then every later line up to the end of input.
    pub fn run_lines(&self, first: Option<Line<InitPayload>>, lines: Vec<Line<H::Payload>>) -> (t:
        Transcript<H::Payload>)
        ensures
            self.produces(first, lines@, t),
    {
        let init_reply = match handshake(first) {
            Ok(ack) => ack,
            Err(e) => {
                return Transcript { init_reply: None, replies: Vec::new(), outcome: Err(e) };
            },
        };
        let ghost all = lines@;
        let mut rest = lines;
        let mut replies: Vec<Message<H::Payload>> = Vec::new();
        let mut outcome: Result<(), NodeError> = Ok(());
        loop
            invariant_except_break
                replies.len() + rest.len() == all.len(),
                rest@ == all.subrange(replies.len() as int, all.len() as int),
            invariant
                forall|i: int| 0 <= i < replies.len() ==> self.line_served(all[i], #[trigger] replies@[i]),
            ensures
                self.dispatched(all, replies@, outcome),
            decreases rest.len(),
        {
            let next = if rest.len() == 0 {
                None
            } else {
                Some(rest.remove(0))
            };
            match read_step(next) {
                Err(e) => {
                    outcome = Err(e);
                    break;
                },
                Ok(event) => match self.on_event(event) {
                    Err(e) => {
                        outcome = Err(e);
                        break;
                    },
                    Ok(None) => {
                        outcome = Ok(());
                        break;
                    },
                    Ok(Some(reply)) => {
                        replies.push(reply);
                    },
                },
            }
        }
        Transcript { init_reply: Some(init_reply), replies, outcome }
    }
}

/// When every line after the handshake decodes to a request that a handler
/// which always answers accepts, the node writes exactly one reply per request, in the order the
/// requests came: the i-th reply goes back to the sender of the i-th request
/// with `in_reply_to` set to that request's `msg_id`, and the run ends
/// normally.
pub proof fn replies_follow_requests<H: Handler>(
    node: RpcNode<H>,
    first: Option<Line<InitPayload>>,
    lines: Seq<Line<H::Payload>>,
    t: Transcript<H::Payload>,
)
    requires
        node.produces(first, lines, t),
        handshake_ok(first),
        node.handler.always_answers(),
        forall|i: int| 0 <= i < lines.len() ==> node.line_ok(#[trigger] lines[i]),
    ensures
        t.replies@.len() == lines.len(),
        forall|i: int|
            0 <= i < lines.len() ==> (#[trigger] lines[i] matches Line::Decoded(m) && {
                let r = t.replies@[i];
                &&& r.body.in_reply_to == m.body.msg_id
                &&& r.src@ == m.dest@
                &&& r.dest@ == m.src@
            }),
        t.outcome is Ok,
{
    if t.replies@.len() < lines.len() {
        assert(node.line_ok(lines[t.replies@.len() as int]));
    }
    assert forall|i: int| 0 <= i < lines.len() implies (#[trigger] lines[i] matches Line::Decoded(m)
        && {
        let r = t.replies@[i];
        &&& r.body.in_reply_to == m.body.msg_id
        &&& r.src@ == m.dest@
        &&& r.dest@ == m.src@
    }) by {
        assert(node.line_served(lines[i], t.replies@[i]));
    }
}

/// After a valid handshake, input that ends with no further line makes a
/// run that succeeds having written the handshake reply and nothing else.
pub proof fn empty_session_writes_only_the_handshake<H: Handler>(
    node: RpcNode<H>,
    first: Option<Line<InitPayload>>,
    lines: Seq<Line<H::Payload>>,
    t: Transcript<H::Payload>,
)
    requires
        node.produces(first, lines, t),
        handshake_ok(first),
        lines.len() == 0,
    ensures
        t.init_reply is Some,
        t.replies@.len() == 0,
        t.outcome is Ok,
{
}

/// A line that does not decode ends the run with an error, and no request
/// at or after it is answered.
pub proof fn malformed_line_is_fatal<H: Handler>(
    node: RpcNode<H>,
    first: Option<Line<InitPayload>>,
    lines: Seq<Line<H::Payload>>,
    t: Transcript<H::Payload>,
    k: int,
)
    requires
        node.produces(first, lines, t),
        0 <= k < lines.len(),
        lines[k] is Malformed,
    ensures
        t.outcome is Err,
        t.replies@.len() <= k,
{
    if t.replies@.len() > k {
        assert(node.line_served(lines[k], t.replies@[k]));
    }
}

} // verus!

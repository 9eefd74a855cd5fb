//! The message envelope: who sent it, who it is for, and its body.
use vstd::prelude::*;

verus! {

/// Bookkeeping fields of a message body; the payload's own fields sit beside
/// them in the same JSON object on the wire.
#[derive(Debug, Clone)]
pub struct Body<Payload> {
    pub msg_id: Option<usize>,
    pub in_reply_to: Option<usize>,
    pub payload: Payload,
}

/// One directed envelope between two named participants.
#[derive(Debug, Clone)]
pub struct Message<Payload> {
    pub src: String,
    pub dest: String,
    pub body: Body<Payload>,
}

impl<Payload> Message<Payload> {
    /// `self` answers `request`: the addresses are swapped, `in_reply_to`
    /// carries the request's `msg_id`, and the replying node assigns no id.
    pub open spec fn is_reply_to<Req>(self, request: Message<Req>) -> bool {
        &&& self.src@ == request.dest@
        &&& self.dest@ == request.src@
        &&& self.body.in_reply_to == request.body.msg_id
        &&& self.body.msg_id is None
    }

    /// Builds the reply to `self` that carries `payload`.
    pub fn reply<Reply>(&self, payload: Reply) -> (r: Message<Reply>)
        ensures
            r.is_reply_to(*self),
            r.body.payload == payload,
    {
        Message {
            src: self.dest.clone(),
            dest: self.src.clone(),
            body: Body { msg_id: None, in_reply_to: self.body.msg_id, payload },
        }
    }
}

} // verus!

//! A node that sends back what it was sent.
use vstd::prelude::*;
use crate::envelope::Message;
use crate::node::Handler;

verus! {

/// The echo protocol's payloads.
#[derive(Debug, Clone)]
pub enum Echo {
    EchoOk { echo: String },
    Echo { echo: String },
}

/// Answers `echo` with `echo_ok` carrying the same text.
#[derive(Debug, Clone, Copy)]
pub struct EchoHandler;

impl Handler for EchoHandler {
    type Payload = Echo;

    open spec fn accepts(&self, request: Message<Echo>) -> bool {
        request.body.payload is Echo
    }

    open spec fn always_answers(&self) -> bool {
        true
    }

    open spec fn answers(&self, request: Message<Echo>, reply: Echo) -> bool {
        &&& reply is EchoOk
        &&& request.body.payload is Echo
        &&& reply->EchoOk_echo@ == request.body.payload->Echo_echo@
    }

    fn handle(&self, request: &Message<Echo>) -> (r: Option<Echo>) {
        match &request.body.payload {
            Echo::Echo { echo } => Some(Echo::EchoOk { echo: echo.clone() }),
            Echo::EchoOk { .. } => None,
        }
    }
}

} // verus!

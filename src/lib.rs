//! A single-node message pump for line-delimited JSON protocol participants.
//!
//! A node answers one `init` handshake, then turns each inbound request into a
//! reply through a pluggable [`Handler`]. Everything here is pure logic over
//! decoded values: reading lines, (de)serialising JSON and writing output are
//! left to the hosting program, which feeds the step functions of this crate
//! ([`handshake`], [`read_step`], [`RpcNode::on_event`]).
//!
//! Failure is not recoverable: a malformed line, a failed write, or a request
//! the handler cannot answer ends the run. This suits a node that speaks one
//! protocol; it is not a general-purpose RPC server.
pub mod echo;
pub mod envelope;
pub mod error;
pub mod event;
pub mod handshake;
pub mod node;
pub mod unique_ids;

pub use echo::{Echo, EchoHandler};
pub use envelope::{Body, Message};
pub use error::NodeError;
pub use event::{read_step, Event, Line};
pub use handshake::{handshake, Init, InitPayload};
pub use node::{Handler, RpcNode, Transcript};
pub use unique_ids::{generate_ok, Generate, GenerateHandler};

//! A multiplexer for a JSON remote-call protocol: method calls go out over a
//! duplex frame transport one at a time, in submission order, and events and
//! call results come back as decoded envelopes.
use vstd::prelude::*;

pub mod call;
pub mod connection;
pub mod envelope;
pub mod json;

pub use call::{decimal_text, encode_call, CallId, EncodeError, MethodCall};
pub use connection::{Connection, ConnectionError, FlushPoll, PollItem, Received, TransportError};
pub use envelope::{classify_envelope, decode_frame, DecodeError, EventMessage, Message, Response};

verus! {

} // verus!

//! Transport layer of an RPC system: moves a named query from a caller to a
//! remote handler and a response back, independent of the wire format and of
//! the physical channel.
//!
//! The crate is organised leaves-first:
//! - [`errors`]: the flat transport error taxonomy;
//! - [`codec`]: the pluggable wire codec strategies;
//! - [`envelope`]: the message shape exchanged over a channel (a name payload
//!   and a query payload, each independently encoded);
//! - [`stream`]: reassembly of discrete messages out of partial stream reads;
//! - [`transport`]: the channel abstraction and the orchestrating facade.

pub mod codec;
pub mod envelope;
pub mod errors;
pub mod stream;
pub mod transport;

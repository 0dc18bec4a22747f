//! Request/reply over an AMQP-style broker: the correlation and
//! acknowledgment protocol, stated over plain values and verified.
//!
//! A caller tags each request with a fresh correlation identifier and the
//! name of its private reply queue, then filters its reply queue for the one
//! delivery that carries the same identifier. A responder answers every
//! request on a named queue and addresses the answer to the queue the
//! request names. The transport itself (connections, channels, awaiting a
//! delivery) is not part of this crate: every function here takes the values
//! a transport hands over and returns the broker commands to carry out.

pub mod client;
pub mod correlation;
pub mod message;
pub mod server;
pub mod theorems;
pub mod util;

pub use client::RPCClient;
pub use server::start_rpc_server;
pub use util::{deserialize_vec_8, serialize_vec_8};

//! Core of a peer-to-peer blockchain node: the wire message taxonomy, the
//! length-delimited frame codec, the deferred payload container that keeps
//! expensive deserialization off the network reactor, and the role
//! parameterization that fixes protocol constants per kind of node.

pub mod codec;
pub mod data;
pub mod environment;
pub mod message;
pub mod node_type;
pub mod payloads;
pub mod peer_addr;
pub mod status;
pub mod wire;

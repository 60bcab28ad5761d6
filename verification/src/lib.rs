//! Protocol engine of a relay node for a layered-encryption ("onion")
//! anonymization overlay.
//!
//! The crate covers the node's three coupled subsystems:
//! the wire codec ([`codec`] and the per-family message modules),
//! the compute side of the transport bridge ([`bridge`]),
//! and tunnel orchestration ([`dialogue`], [`layers`], [`ids`]).
//! Socket handling and worker threads live outside this library; they feed
//! the state machines here with decoded messages and perform the actions
//! the machines hand back.

pub mod addr;
pub mod auth;
pub mod bridge;
pub mod codec;
pub mod dialogue;
pub mod errors;
pub mod ids;
pub mod layers;
pub mod msgpack;
pub mod onion;
pub mod p2p;
pub mod rps;
pub mod wire;

//! Peer-to-peer broadcast layer of a privacy-oriented trading mesh.
//!
//! Nodes exchange intents (trade requests, deal acceptances, settlement
//! confirmations) over a single gossip topic. This crate holds the rules of
//! that layer: the shape of an intent on the wire, relay-integrity validation in
//! front of every broadcast, the classification of incoming messages, the
//! content-addressed message identifier and the decisions of the mesh event
//! loop. Sockets, timers and key material stay with the embedding program.

pub mod agent;
pub mod classify;
pub mod digest;
pub mod event;
pub mod intent;
pub mod json;
pub mod mesh;
pub mod outbox;
pub mod relay;
pub mod startup;
pub mod text;
pub mod zk;

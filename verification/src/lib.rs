//! Protocol client for a telemetry/command link to a remote vehicle.
//!
//! The connection layer multiplexes one inbound message stream across many
//! request/response and monitoring operations; on top of it sit a command
//! protocol with acknowledgment tracking, a sequence-numbered mission-upload
//! handshake, and a mode-change confirmation loop.  The wire schema and the
//! physical transport are external: the connection here works over a recorded
//! stream of timed arrivals, and the decisions it takes per message are what
//! a runtime loop drives against a live link.
//!
//! Two smaller, self-contained libraries ride along: a cooperative
//! ticker/pubsub scheduler and a cut-edge search on undirected graphs.

pub mod msg;
pub mod connection;
pub mod command;
pub mod mission;
pub mod mode;
pub mod pubsub;
pub mod time;
pub mod ticker;
pub mod hello_world;
pub mod cut_edge;

//! Routing core of a Mumble-compatible voice chat server, and the decision
//! logic of its client: the routing table, the control and routing actors,
//! the per-connection session state machine, session id allocation, the
//! client connection dispatch and the capture framing of the audio codec.
//!
//! Every actor is written as a step function from its state and one event to
//! its next state and the action to perform; the runtime that performs the
//! actions (sockets, timers, audio devices) lives outside this crate.

pub mod protocol;
pub mod sink;
pub mod routing_table;
pub mod control;
pub mod routing;
pub mod session;
pub mod acceptor;
pub mod connection;
pub mod codec;
pub mod config;

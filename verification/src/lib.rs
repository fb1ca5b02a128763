//! Forwarding of tunnel connections to a local destination named by a URL.
//!
//! The crate holds the decisions of a forwarder: how a destination URL is
//! resolved to a dial plan, how a dial proceeds step by step, what is sent
//! back when a dial fails, and how a connection moves through its life.
//! Sockets, timers and the tunnel itself stay with the caller, which performs
//! the requested steps and reports their outcomes.

pub mod context;
pub mod destination;
pub mod dial;
pub mod error;
pub mod forward;
pub mod gateway;
pub mod plan;
pub mod relay;
pub mod text;

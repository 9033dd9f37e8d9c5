//! Core of a multiplexed byte-stream protocol over a single duplex transport:
//! many logical streams share one ordered, reliable connection.
//!
//! The crate is a verified state machine. It tracks every live stream, routes
//! inbound frames into per-stream handoff slots, queues outbound frames for a
//! single writer, and enforces per-stream credit-based flow control. All I/O,
//! task scheduling and frame encoding stay outside: callers feed decoded
//! frames in, drain queued frames out, and pass their own task handles (the
//! type parameter `T` throughout) for the wake-up bookkeeping.

pub mod connection;
pub mod flow;
pub mod frames;
pub mod stream;

//! Verified orchestration core of a point-to-point tunnel client.
//!
//! The client bridges a virtual network interface to one remote peer over a
//! datagram transport, delegating the cryptographic work to an opaque tunnel
//! engine.  This crate holds the decision logic of that client: how each
//! engine outcome is dispatched, how the decapsulate loop re-invokes the
//! engine, and when the watchdog re-binds the transport.  The surrounding
//! process performs the actual I/O and feeds events and outcomes back in.

pub mod config;
pub mod decap;
pub mod dispatch;
pub mod netcfg;
pub mod orchestrator;
pub mod events;
pub mod outcome;

pub use outcome::Outcome;

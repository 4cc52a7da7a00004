//! Process configuration: constructed once at startup, read-only after.

use vstd::prelude::*;

verus! {

/// Log verbosity, most severe first.
#[derive(Debug, PartialEq, Eq, Clone, Copy)]
pub enum LogLevel {
    Error,
    Warn,
    Info,
    Debug,
    Trace,
}

/// Everything the client is told at startup.  The orchestration core reads
/// only `reconnect_timeout`; the rest parameterises the channels and the
/// engine that the surrounding process builds.
pub struct Config {
    pub log_level: LogLevel,
    pub local_private_key: String,
    pub remote_public_key: String,
    /// `host:port` of the one remote peer.
    pub remote_addr: String,
    /// Name of the virtual network interface.
    pub ifname: String,
    pub mtu: i32,
    /// Seconds between keepalives, if any.
    pub keepalive: Option<u16>,
    /// Seconds of staleness after which the transport is re-bound.
    /// Reconnection is entirely off when unset.
    pub reconnect_timeout: Option<u16>,
    pub fwmark: Option<u32>,
}

} // verus!

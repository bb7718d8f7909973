//! The server's configuration.

use vstd::prelude::*;

verus! {

/// The port the server listens on unless told otherwise.
pub const DEFAULT_PORT: u16 = 8080;

/// The grace period unless told otherwise: one second.
pub const DEFAULT_GRACE_MS: u64 = 1000;

/// Where the server listens and how long it drains. It is made once at
/// startup and never changes.
#[derive(Clone, Copy, Debug, PartialEq, Eq)]
pub struct ServerConfig {
    /// IPv4 address to bind, one octet per element.
    pub host: [u8; 4],
    /// TCP port to bind.
    pub port: u16,
    /// Length of the grace period, in milliseconds.
    pub grace_ms: u64,
}

impl ServerConfig {
    /// Whether the address is the unspecified one, which binds every interface.
    pub open spec fn binds_all_interfaces(self) -> bool {
        self.host@ == seq![0u8, 0u8, 0u8, 0u8]
    }
}

impl Default for ServerConfig {
    /// Every interface, port 8080, a grace period of one second.
    fn default() -> (config: ServerConfig)
        ensures
            config.binds_all_interfaces(),
            config.port == 8080,
            config.grace_ms == 1000,
    {
        ServerConfig { host: [0u8, 0u8, 0u8, 0u8], port: DEFAULT_PORT, grace_ms: DEFAULT_GRACE_MS }
    }
}

} // verus!

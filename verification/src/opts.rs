//! Spawn options for actors.

use vstd::prelude::*;

verus! {

/// Options a spawned actor's listener is configured with.
#[derive(Debug)]
pub struct ActorOptions {
    /// The host to listen on.
    pub host: String,
    /// The port to listen on; absent means one is picked.
    pub port: Option<u16>,
    /// The per-connection read timeout in milliseconds, if bounded.
    pub read_timeout: Option<u64>,
}

/// Spawn options for remote actors.
#[derive(Debug, Default)]
pub struct SpawnOpts {
    /// The protocol to use; absent means IPv4.
    pub protocol: Option<Ip>,
}

/// Whether to listen on IPv4, IPv6, or both.
#[derive(Debug, Clone, Copy, PartialEq, Eq, Structural)]
pub enum Ip {
    /// Listen on an IPv4 address.
    V4,
    /// Listen on an IPv6 address.
    V6,
    /// Listen on both.
    Both,
}

impl Default for Ip {
    /// The default protocol is IPv4.
    fn default() -> (r: Self)
        ensures
            r is V4,
    {
        Ip::V4
    }
}

} // verus!

//! A host-and-port pair for listening or dialing.
//!
//! Only construction and reshaping live here; checking that a port is
//! actually free means binding a socket and stays with the I/O layer,
//! which hands the checked port back in.

use vstd::prelude::*;

verus! {

/// A (possibly) valid network address.
#[derive(Debug, Clone)]
pub struct Address {
    /// The host part.
    pub host: String,
    /// The port part.
    pub port: u16,
}

impl Address {
    /// Create a new address.  The port is not checked, since the address
    /// may belong to a remote actor.
    pub fn new(host: &str, port: u16) -> (r: Self)
        ensures
            r.host@ == host@,
            r.port == port,
    {
        Address { host: host.to_owned(), port }
    }

    /// A copy of this address under a different host, useful when
    /// publishing to some sort of service announcement.
    pub fn with_host(&self, new_host: &str) -> (r: Self)
        ensures
            r.host@ == new_host@,
            r.port == self.port,
    {
        Address { host: new_host.to_owned(), port: self.port }
    }

    /// This address' host.
    pub fn host(&self) -> (r: String)
        ensures
            r@ == self.host@,
    {
        self.host.clone()
    }
}

} // verus!

//! The authorizer: an actor holding two unordered stores — peer
//! identifiers and address equivalents — consulted for per-message access
//! decisions.
//!
//! Users supply the resolution policy; the store below is the data plane
//! the policy consults.  The surrounding actor task only feeds commands
//! to these methods.

use vstd::prelude::*;

verus! {

/// The access a message requires, as the authorizer sees it.
#[derive(Debug, Clone, Copy, PartialEq, Eq, Structural)]
pub enum AccessDescription {
    /// A liveness ping.
    Ping,
    /// A stop request.
    Stop,
    /// A task request.
    Task,
}

/// Whether to accept or deny an incoming request.
#[derive(Debug, Clone, Copy, PartialEq, Eq, Structural)]
pub enum AccessResolution {
    /// Request accepted.
    Accepted,
    /// Request denied.
    Denied,
    /// Request denied, and the peer should be refused further traffic.
    Ban,
}

/// Information about the peer asking for access.
#[derive(Debug)]
pub struct AccessRequest {
    /// The peer's identifier.
    pub peer: Vec<u8>,
    /// The peer's dial address, when the transport knows one.
    pub addr: Option<String>,
    /// The access the incoming message requires.
    pub access: AccessDescription,
}

/// Errors while messaging an authorizer actor.
#[derive(Debug, Clone, PartialEq, Eq, Structural)]
pub enum AuthError {
    /// The request could not be handed to the actor.
    Send,
    /// No response came back from the actor.
    Recv,
}

/// The authorizer's data plane: an unordered store of peer identifiers
/// and one of addresses.
///
/// Whether the stores act as allow-lists or block-lists depends entirely
/// on the resolution policy consulting them.
#[derive(Debug)]
pub struct AuthStore {
    peers: Vec<Vec<u8>>,
    addrs: Vec<String>,
}

impl AuthStore {
    /// Whether the peer store holds this identifier.
    pub closed spec fn has_peer(&self, p: Seq<u8>) -> bool {
        exists|i: int| 0 <= i < self.peers@.len() && self.peers@[i]@ == p
    }

    /// Whether the address store holds this address.
    pub closed spec fn has_addr(&self, a: Seq<char>) -> bool {
        exists|i: int| 0 <= i < self.addrs@.len() && self.addrs@[i]@ == a
    }

    /// An empty store.
    pub fn new() -> (r: Self)
        ensures
            forall|p: Seq<u8>| !r.has_peer(p),
            forall|a: Seq<char>| !r.has_addr(a),
    {
        AuthStore { peers: Vec::new(), addrs: Vec::new() }
    }

    /// Whether the peer store holds this identifier.
    pub fn contains_peer(&self, peer: &[u8]) -> (r: bool)
        ensures
            r == self.has_peer(peer@),
    {
        let n = self.peers.len();
        let mut i: usize = 0;
        while i < n
            invariant
                n == self.peers@.len(),
                i <= n,
                forall|j: int| 0 <= j < i ==> self.peers@[j]@ != peer@,
            decreases n - i,
        {
            if crate::router::bytes_eq(self.peers[i].as_slice(), peer) {
                return true;
            }
            i += 1;
        }
        false
    }

    /// Whether the address store holds this address.
    pub fn contains_addr(&self, addr: &String) -> (r: bool)
        ensures
            r == self.has_addr(addr@),
    {
        let n = self.addrs.len();
        let mut i: usize = 0;
        while i < n
            invariant
                n == self.addrs@.len(),
                i <= n,
                forall|j: int| 0 <= j < i ==> self.addrs@[j]@ != addr@,
            decreases n - i,
        {
            if self.addrs[i].eq(addr) {
                return true;
            }
            i += 1;
        }
        false
    }

    /// Insert a peer identifier into the peer store.
    pub fn store_peer(&mut self, peer: Vec<u8>)
        ensures
            forall|q: Seq<u8>| final(self).has_peer(q) <==> old(self).has_peer(q) || q == peer@,
            forall|a: Seq<char>| final(self).has_addr(a) == old(self).has_addr(a),
    {
        let ghost p = peer@;
        if !self.contains_peer(peer.as_slice()) {
            self.peers.push(peer);
            proof {
                assert forall|q: Seq<u8>|
                    self.has_peer(q) <==> old(self).has_peer(q) || q == p by {
                    if old(self).has_peer(q) {
                        let w = choose|i: int|
                            0 <= i < old(self).peers@.len() && old(self).peers@[i]@ == q;
                        assert(self.peers@[w]@ == q);
                    }
                    if self.has_peer(q) && q != p {
                        let w = choose|i: int|
                            0 <= i < self.peers@.len() && self.peers@[i]@ == q;
                        assert(w < old(self).peers@.len());
                        assert(old(self).peers@[w]@ == q);
                    }
                    if q == p {
                        assert(self.peers@[self.peers@.len() - 1]@ == q);
                    }
                }
            }
        }
        proof {
            assert forall|a: Seq<char>| self.has_addr(a) == old(self).has_addr(a) by {
                if old(self).has_addr(a) {
                    let w = choose|i: int|
                        0 <= i < old(self).addrs@.len() && old(self).addrs@[i]@ == a;
                    assert(self.addrs@[w]@ == a);
                }
                if self.has_addr(a) {
                    let w = choose|i: int| 0 <= i < self.addrs@.len() && self.addrs@[i]@ == a;
                    assert(old(self).addrs@[w]@ == a);
                }
            }
        }
    }

    /// Insert an address into the address store.
    pub fn store_addr(&mut self, addr: String)
        ensures
            forall|a: Seq<char>| final(self).has_addr(a) <==> old(self).has_addr(a) || a == addr@,
            forall|q: Seq<u8>| final(self).has_peer(q) == old(self).has_peer(q),
    {
        let ghost v = addr@;
        if !self.contains_addr(&addr) {
            self.addrs.push(addr);
            proof {
                assert forall|a: Seq<char>|
                    self.has_addr(a) <==> old(self).has_addr(a) || a == v by {
                    if old(self).has_addr(a) {
                        let w = choose|i: int|
                            0 <= i < old(self).addrs@.len() && old(self).addrs@[i]@ == a;
                        assert(self.addrs@[w]@ == a);
                    }
                    if self.has_addr(a) && a != v {
                        let w = choose|i: int|
                            0 <= i < self.addrs@.len() && self.addrs@[i]@ == a;
                        assert(w < old(self).addrs@.len());
                        assert(old(self).addrs@[w]@ == a);
                    }
                    if a == v {
                        assert(self.addrs@[self.addrs@.len() - 1]@ == a);
                    }
                }
            }
        }
        proof {
            assert forall|q: Seq<u8>| self.has_peer(q) == old(self).has_peer(q) by {
                if old(self).has_peer(q) {
                    let w = choose|i: int|
                        0 <= i < old(self).peers@.len() && old(self).peers@[i]@ == q;
                    assert(self.peers@[w]@ == q);
                }
                if self.has_peer(q) {
                    let w = choose|i: int| 0 <= i < self.peers@.len() && self.peers@[i]@ == q;
                    assert(old(self).peers@[w]@ == q);
                }
            }
        }
    }

    /// The allow-list policy: accept a request exactly when its peer is
    /// in the peer store, or its address is known and in the address
    /// store; deny everything else.
    pub fn resolve_allow_list(&self, request: &AccessRequest) -> (r: AccessResolution)
        ensures
            r is Accepted <==> self.has_peer(request.peer@) || (request.addr matches Some(a)
                && self.has_addr(a@)),
            r is Accepted || r is Denied,
    {
        if self.contains_peer(request.peer.as_slice()) {
            AccessResolution::Accepted
        } else {
            match &request.addr {
                Some(a) => if self.contains_addr(a) {
                    AccessResolution::Accepted
                } else {
                    AccessResolution::Denied
                },
                None => AccessResolution::Denied,
            }
        }
    }
}

} // verus!

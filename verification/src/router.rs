//! The router: owner of one transport endpoint, minting and revoking
//! capability addresses and dispatching inbound frames to the bridge
//! registered under the peer id they carry.
//!
//! The peer table below is the router's whole decision state: *attach*
//! inserts a bridge under a fresh random id, *revoke* deletes an id,
//! *route* looks an inbound id up, *stop* drops the table.  The event
//! loop around it only performs transport I/O and feeds these methods.

use vstd::prelude::*;

use crate::address::{ActorAddress, PeerId};

verus! {

/// Router configuration: the per-connection read timeout and the bound on
/// declared message sizes.
#[derive(Debug, Clone, Copy, PartialEq, Eq, Structural)]
pub struct RouterOpts {
    /// Timeout in milliseconds for reading a request from a stream.
    pub msg_read_timeout: u64,
    /// Largest declared message body accepted, in bytes.
    pub max_msg_size: u32,
}

impl RouterOpts {
    /// Create a new set of router options.
    pub fn new(msg_read_timeout: u64, max_msg_size: u32) -> (r: Self)
        ensures
            r.msg_read_timeout == msg_read_timeout,
            r.max_msg_size == max_msg_size,
    {
        RouterOpts { msg_read_timeout, max_msg_size }
    }

    /// The message read timeout in milliseconds.
    pub fn msg_read_timeout(&self) -> (r: u64)
        ensures
            r == self.msg_read_timeout,
    {
        self.msg_read_timeout
    }

    /// The largest accepted message size in bytes.
    pub fn max_msg_size(&self) -> (r: u32)
        ensures
            r == self.max_msg_size,
    {
        self.max_msg_size
    }
}

impl Default for RouterOpts {
    /// The default options: a five-second read timeout and a 4 MiB size
    /// bound.
    fn default() -> (r: Self)
        ensures
            r.msg_read_timeout == 5000,
            r.max_msg_size == 4194304,
    {
        RouterOpts { msg_read_timeout: 5000, max_msg_size: 4194304 }
    }
}

/// The map a peer table denotes: later entries shadow earlier ones,
/// though a well-formed table never holds a key twice.
pub open spec fn table_map<H>(s: Seq<(PeerId, H)>) -> Map<Seq<u8>, H>
    decreases s.len(),
{
    if s.len() == 0 {
        Map::empty()
    } else {
        table_map(s.drop_last()).insert(s.last().0@, s.last().1)
    }
}

/// No two entries of the table share a peer id.
pub open spec fn distinct_keys<H>(s: Seq<(PeerId, H)>) -> bool {
    forall|i: int, j: int| 0 <= i < j < s.len() ==> s[i].0@ != s[j].0@
}

/// A key held by no entry is absent from the table's map, and a held key
/// is present.
pub proof fn lemma_table_map_contains<H>(s: Seq<(PeerId, H)>, key: Seq<u8>)
    ensures
        table_map(s).contains_key(key) <==> exists|i: int| 0 <= i < s.len() && s[i].0@ == key,
    decreases s.len(),
{
    if s.len() > 0 {
        lemma_table_map_contains(s.drop_last(), key);
        if table_map(s).contains_key(key) {
            if s.last().0@ != key {
                let w = choose|i: int| 0 <= i < s.len() - 1 && s.drop_last()[i].0@ == key;
                assert(s[w].0@ == key);
            } else {
                assert(s[s.len() - 1].0@ == key);
            }
        }
        if exists|i: int| 0 <= i < s.len() && s[i].0@ == key {
            let w = choose|i: int| 0 <= i < s.len() && s[i].0@ == key;
            if w < s.len() - 1 {
                assert(s.drop_last()[w].0@ == key);
            }
        }
    }
}

/// In a table without duplicate keys, each entry's id maps to its own
/// bridge.
pub proof fn lemma_table_map_found<H>(s: Seq<(PeerId, H)>, i: int)
    requires
        distinct_keys(s),
        0 <= i < s.len(),
    ensures
        table_map(s).contains_key(s[i].0@),
        table_map(s)[s[i].0@] == s[i].1,
    decreases s.len(),
{
    if i == s.len() - 1 {
    } else {
        assert(s.drop_last()[i] == s[i]);
        lemma_table_map_found(s.drop_last(), i);
        assert(s.last().0@ != s[i].0@);
    }
}

/// Removing an entry from a table without duplicate keys removes exactly
/// its key from the map.
pub proof fn lemma_table_map_remove<H>(s: Seq<(PeerId, H)>, i: int)
    requires
        distinct_keys(s),
        0 <= i < s.len(),
    ensures
        table_map(s.remove(i)) =~= table_map(s).remove(s[i].0@),
    decreases s.len(),
{
    let key = s[i].0@;
    if i == s.len() - 1 {
        assert(s.remove(i) =~= s.drop_last());
        lemma_table_map_contains(s.drop_last(), key);
        assert forall|j: int| 0 <= j < s.len() - 1 implies s.drop_last()[j].0@ != key by {
            assert(s[j].0@ != s[i].0@);
        }
        assert(table_map(s.drop_last()) =~= table_map(s.drop_last()).insert(key, s[i].1).remove(
            key,
        ));
    } else {
        let last = s.last();
        assert(s.remove(i).last() == last);
        assert(s.remove(i).drop_last() =~= s.drop_last().remove(i));
        assert(s.drop_last()[i] == s[i]);
        lemma_table_map_remove(s.drop_last(), i);
        assert(last.0@ != key);
        assert(table_map(s.remove(i)) =~= table_map(s.drop_last()).remove(key).insert(
            last.0@,
            last.1,
        ));
        assert(table_map(s.drop_last()).remove(key).insert(last.0@, last.1) =~= table_map(
            s.drop_last(),
        ).insert(last.0@, last.1).remove(key));
    }
}

/// Whether two byte strings hold the same bytes.
pub fn bytes_eq(a: &[u8], b: &[u8]) -> (r: bool)
    ensures
        r == (a@ == b@),
{
    if a.len() != b.len() {
        return false;
    }
    let n = a.len();
    let mut i: usize = 0;
    while i < n
        invariant
            n == a@.len() == b@.len(),
            i <= n,
            forall|j: int| 0 <= j < i ==> a@[j] == b@[j],
        decreases n - i,
    {
        if a[i] != b[i] {
            return false;
        }
        i += 1;
    }
    proof {
        assert(a@ =~= b@);
    }
    true
}

/// A router's decision state: the transport's protocol tag and exposed
/// dial string, the input bounds, and the peer table mapping each minted
/// id to the bridge attached under it.
///
/// `H` is the bridge handle type the surrounding event loop stores.
#[derive(Debug)]
pub struct Router<H> {
    proto_id: String,
    host_address: String,
    opts: RouterOpts,
    peers: Vec<(PeerId, H)>,
}

impl<H> Router<H> {
    /// The map this router's peer table denotes.
    pub closed spec fn peers_map(&self) -> Map<Seq<u8>, H> {
        table_map(self.peers@)
    }

    /// Well-formedness: no peer id is held twice.
    pub closed spec fn wf(&self) -> bool {
        distinct_keys(self.peers@)
    }

    /// The protocol tag minted addresses carry.
    pub closed spec fn proto_spec(&self) -> Seq<char> {
        self.proto_id@
    }

    /// The dial string minted addresses carry.
    pub closed spec fn host_spec(&self) -> Seq<char> {
        self.host_address@
    }

    /// This router's configured bounds.
    pub closed spec fn opts_spec(&self) -> RouterOpts {
        self.opts
    }

    /// Create a router for an endpoint with this protocol tag and dial
    /// string; absent options fall back to the defaults.
    pub fn new(proto_id: &str, host_address: &str, opts: Option<RouterOpts>) -> (r: Self)
        ensures
            r.wf(),
            r.peers_map() == Map::<Seq<u8>, H>::empty(),
            r.proto_spec() == proto_id@,
            r.host_spec() == host_address@,
            match opts {
                Some(o) => r.opts_spec() == o,
                None => r.opts_spec() == (RouterOpts { msg_read_timeout: 5000, max_msg_size: 4194304 }),
            },
    {
        let opts = match opts {
            Some(o) => o,
            None => RouterOpts::default(),
        };
        Router {
            proto_id: proto_id.to_owned(),
            host_address: host_address.to_owned(),
            opts,
            peers: Vec::new(),
        }
    }

    /// The index of the entry holding this key, if any.
    fn find_index(&self, key: &[u8]) -> (r: Option<usize>)
        ensures
            match r {
                Some(i) => i < self.peers@.len() && self.peers@[i as int].0@ == key@,
                None => forall|j: int| 0 <= j < self.peers@.len() ==> self.peers@[j].0@ != key@,
            },
    {
        let n = self.peers.len();
        let mut i: usize = 0;
        while i < n
            invariant
                n == self.peers@.len(),
                i <= n,
                forall|j: int| 0 <= j < i ==> self.peers@[j].0@ != key@,
            decreases n - i,
        {
            if bytes_eq(self.peers[i].0.bytes(), key) {
                return Some(i);
            }
            i += 1;
        }
        None
    }

    /// Drop the entry holding this key, if any.
    fn remove_key(&mut self, key: &[u8])
        requires
            old(self).wf(),
        ensures
            final(self).wf(),
            final(self).peers_map() == old(self).peers_map().remove(key@),
            forall|j: int|
                0 <= j < final(self).peers@.len() ==> final(self).peers@[j].0@ != key@,
            final(self).proto_spec() == old(self).proto_spec(),
            final(self).host_spec() == old(self).host_spec(),
            final(self).opts_spec() == old(self).opts_spec(),
    {
        match self.find_index(key) {
            Some(i) => {
                let ghost s = self.peers@;
                self.peers.remove(i);
                proof {
                    lemma_table_map_remove(s, i as int);
                    assert forall|j: int|
                        0 <= j < self.peers@.len() implies self.peers@[j].0@ != key@ by {
                        if j < i {
                            assert(s[j].0@ != s[i as int].0@);
                        } else {
                            assert(self.peers@[j] == s[j + 1]);
                            assert(s[i as int].0@ != s[j + 1].0@);
                        }
                    }
                }
            },
            None => {
                proof {
                    lemma_table_map_contains(self.peers@, key@);
                    assert(self.peers_map() =~= self.peers_map().remove(key@));
                }
            },
        }
    }

    /// Register a bridge, minting a fresh random 32-byte peer id, and
    /// return the address that reaches it.
    ///
    /// The address is a capability: whoever holds it can message the
    /// bridge until the id is revoked.
    pub fn attach(&mut self, handle: H) -> (r: ActorAddress)
        requires
            old(self).wf(),
        ensures
            final(self).wf(),
            r@.proto == old(self).proto_spec(),
            r@.host == old(self).host_spec(),
            r@.peer.len() == 32,
            final(self).peers_map() == old(self).peers_map().insert(r@.peer, handle),
            final(self).proto_spec() == old(self).proto_spec(),
            final(self).host_spec() == old(self).host_spec(),
            final(self).opts_spec() == old(self).opts_spec(),
    {
        let id_bytes = crate::address::random_bytes_32();
        let peer = PeerId::new_from_bytes(id_bytes.as_slice());
        let addr = ActorAddress::new_with_peer_id(
            self.proto_id.as_str(),
            self.host_address.as_str(),
            peer,
        );
        self.remove_key(addr.peer_id().bytes());
        let ghost cleared = self.peers@;
        let peer_key = PeerId::new_from_bytes(addr.peer_id().bytes());
        self.peers.push((peer_key, handle));
        proof {
            assert(self.peers@.drop_last() =~= cleared);
            assert(self.peers@.last().0@ == addr@.peer);
            assert(old(self).peers_map().remove(addr@.peer).insert(addr@.peer, handle)
                =~= old(self).peers_map().insert(addr@.peer, handle));
            assert forall|i: int, j: int|
                0 <= i < j < self.peers@.len() implies self.peers@[i].0@ != self.peers@[j].0@ by {
                if j == self.peers@.len() - 1 {
                    assert(cleared[i].0@ != addr@.peer);
                }
            }
        }
        addr
    }

    /// Delete the entry this address points at; the same id is routed no
    /// longer.  In-flight requests already forwarded complete on their
    /// own.  Returns the revoked address.
    pub fn revoke(&mut self, address: &ActorAddress) -> (r: ActorAddress)
        requires
            old(self).wf(),
        ensures
            final(self).wf(),
            final(self).peers_map() == old(self).peers_map().remove(address@.peer),
            r@ == address@,
            final(self).proto_spec() == old(self).proto_spec(),
            final(self).host_spec() == old(self).host_spec(),
            final(self).opts_spec() == old(self).opts_spec(),
    {
        self.remove_key(address.peer_id().bytes());
        let echo = ActorAddress::new_with_peer_id(
            address.proto_id(),
            address.host(),
            PeerId::new_from_bytes(address.peer_id().bytes()),
        );
        proof {
            assert(echo@ =~= address@);
        }
        echo
    }

    /// Look up the bridge registered under an inbound peer id; `None`
    /// means the id was never attached, or has been revoked, and the
    /// request is dropped.
    pub fn route(&self, peer: &[u8]) -> (r: Option<&H>)
        requires
            self.wf(),
        ensures
            match r {
                Some(h) => self.peers_map().contains_key(peer@) && *h == self.peers_map()[peer@],
                None => !self.peers_map().contains_key(peer@),
            },
    {
        match self.find_index(peer) {
            Some(i) => {
                proof {
                    lemma_table_map_found(self.peers@, i as int);
                }
                Some(&self.peers[i].1)
            },
            None => {
                proof {
                    lemma_table_map_contains(self.peers@, peer@);
                }
                None
            },
        }
    }

    /// Drop the whole peer table; every registered address stops being
    /// routed.
    pub fn stop(&mut self)
        ensures
            final(self).wf(),
            final(self).peers_map() == Map::<Seq<u8>, H>::empty(),
            final(self).proto_spec() == old(self).proto_spec(),
            final(self).host_spec() == old(self).host_spec(),
            final(self).opts_spec() == old(self).opts_spec(),
    {
        self.peers = Vec::new();
    }

    /// This router's exposed dial string, as the transport advertised it.
    pub fn host_address(&self) -> (r: &str)
        ensures
            r@ == self.host_spec(),
    {
        self.host_address.as_str()
    }

    /// This router's configured bounds.
    pub fn opts(&self) -> (r: &RouterOpts)
        ensures
            *r == self.opts_spec(),
    {
        &self.opts
    }
}

/// Revocation is effective: the id a revoke removed is absent from the
/// table, so `route` drops every later request carrying it.
pub proof fn lemma_revoked_not_routed<H>(m: Map<Seq<u8>, H>, peer: Seq<u8>)
    ensures
        !m.remove(peer).contains_key(peer),
{
}

/// Revocation seen from the wire: a well-formed request frame carrying a
/// revoked id still parses, but the table routes it to no bridge, so the
/// request is dropped and no reply frame is produced for it.
pub proof fn lemma_revoked_wire_request_dropped<H>(
    m: Map<Seq<u8>, H>,
    id: Seq<u8>,
    body: Seq<u8>,
    max: int,
)
    requires
        id.len() <= 0xFFFF,
        body.len() <= 0xFFFF_FFFF,
        body.len() <= max,
    ensures
        crate::wire::parse_request_spec(crate::wire::req_frame(id, body), max) == Some((id, body)),
        !m.remove(id).contains_key(id),
{
    crate::wire::lemma_request_round_trip(id, body, max);
}

/// Errors when creating a router, or messaging an actor through one.
#[derive(Debug, Clone)]
pub enum Error {
    /// The router or its transport refused to start.
    Init,
    /// The transport could not dial the host.
    Connect,
    /// The codec failed to encode or decode a message.
    Serialize(crate::dencoder::Error),
    /// A request could not be sent.
    Send,
    /// No response could be observed.
    Recv,
    /// The address was malformed.
    Address(crate::address::Error),
}

} // verus!

//! Revocable addresses of remote actors.
//!
//! An address is the triple `(protocol tag, peer id, host)`, written
//! `"<tag>:<hex peer id>@<host>"`.  The peer id is an unguessable byte
//! string minted by a router; whoever holds the address can message the
//! actor behind it until the router revokes the id.

use vstd::prelude::*;

use crate::hex::{decode_hex, encode_hex, hex_bytes, hex_chars, is_hex_str, nibble_char};

verus! {

/// Errors when creating or parsing an address.
#[derive(Debug, Clone, PartialEq, Eq, Structural)]
pub enum Error {
    /// The textual form is malformed: a separator is missing, misplaced,
    /// or delimits an empty tag or peer id.
    Malformed,
    /// The peer id is not a well-formed hex string.
    Id,
}

/// A bag of bytes acting as a unique, unguessable identifier inside a
/// router.
#[derive(Debug, Clone)]
pub struct PeerId(Vec<u8>);

impl View for PeerId {
    type V = Seq<u8>;

    closed spec fn view(&self) -> Seq<u8> {
        self.0@
    }
}

/// Relies on `rand::rngs::ThreadRng` through `rand::RngCore::fill_bytes`,
/// which fills the buffer with random data.  Nothing can be promised of
/// the values; only the length is stated.
#[verifier::external_body]
pub(crate) fn random_bytes_32() -> (r: Vec<u8>)
    ensures
        r@.len() == 32,
{
    let mut buffer = [0u8; 32];
    rand::RngCore::fill_bytes(&mut rand::thread_rng(), &mut buffer);
    buffer.to_vec()
}

impl PeerId {
    /// Generate a new random 32-byte peer id.
    pub fn new() -> (r: Result<Self, Error>)
        ensures
            r matches Ok(p) && p@.len() == 32,
    {
        Ok(PeerId(random_bytes_32()))
    }

    /// Build a peer id from the given bytes.
    pub fn new_from_bytes(bytes: &[u8]) -> (r: Self)
        ensures
            r@ == bytes@,
    {
        PeerId(vstd::slice::slice_to_vec(bytes))
    }

    /// Parse a hex string, in either case, as a peer id.
    ///
    /// Fails with `Error::Id` exactly when `value` is not well-formed hex.
    pub fn try_parse(value: &str) -> (r: Result<Self, Error>)
        ensures
            is_hex_str(value@) ==> (r matches Ok(p) && p@ == hex_bytes(value@)),
            !is_hex_str(value@) ==> r == Err::<Self, Error>(Error::Id),
    {
        match decode_hex(value) {
            Some(b) => Ok(PeerId(b)),
            None => Err(Error::Id),
        }
    }

    /// The bytes making up this peer id.
    pub fn bytes(&self) -> (r: &[u8])
        ensures
            r@ == self@,
    {
        self.0.as_slice()
    }

    /// The length of this peer id's byte buffer.
    pub fn len(&self) -> (r: usize)
        ensures
            r == self@.len(),
    {
        self.0.len()
    }

    /// Whether this peer id's byte buffer is empty.
    pub fn is_empty(&self) -> (r: bool)
        ensures
            r == (self@.len() == 0),
    {
        self.0.len() == 0
    }

    /// The lowercase hex rendering of this peer id, as it appears inside
    /// an address.
    pub fn to_hex(&self) -> (r: String)
        ensures
            r@ == hex_chars(self@),
            r@.len() == 2 * self@.len(),
    {
        encode_hex(&self.0)
    }
}

/// The mathematical content of an address: its three components as plain
/// sequences.
#[verifier::ext_equal]
pub struct AddressView {
    /// The transport's protocol tag.
    pub proto: Seq<char>,
    /// The peer id bytes.
    pub peer: Seq<u8>,
    /// The transport-specific dial string.
    pub host: Seq<char>,
}

/// A revocable address of a remote actor.
///
/// Textual form: `"<tag>:<hex peer id>@<host>"`.
#[derive(Debug, Clone)]
pub struct ActorAddress {
    proto_id: String,
    peer_id: PeerId,
    host: String,
}

impl View for ActorAddress {
    type V = AddressView;

    closed spec fn view(&self) -> AddressView {
        AddressView { proto: self.proto_id@, peer: self.peer_id@, host: self.host@ }
    }
}

/// The canonical textual form of an address.
pub open spec fn format_spec(v: AddressView) -> Seq<char> {
    v.proto + seq![':'] + hex_chars(v.peer) + seq!['@'] + v.host
}

/// What parsing a string yields: the first `:` separates the tag from the
/// peer id, the first `@` separates the peer id from the host.  A missing
/// or misplaced separator, an empty tag or an empty peer id is
/// `Malformed`; a peer id segment that is not well-formed hex is `Id`.
pub open spec fn parse_spec(s: Seq<char>) -> Result<AddressView, Error> {
    match s.index_of_first(':') {
        None => Err(Error::Malformed),
        Some(ps) => match s.index_of_first('@') {
            None => Err(Error::Malformed),
            Some(hs) => if ps == 0 || hs == 0 || ps >= hs || ps + 1 == hs {
                Err(Error::Malformed)
            } else {
                let peer = s.subrange(ps + 1, hs);
                if is_hex_str(peer) {
                    Ok(
                        AddressView {
                            proto: s.take(ps),
                            peer: hex_bytes(peer),
                            host: s.skip(hs + 1),
                        },
                    )
                } else {
                    Err(Error::Id)
                }
            },
        },
    }
}

/// Find the first occurrence of a character in a string.
fn find_first(s: &str, c: char) -> (r: Option<usize>)
    ensures
        match r {
            Some(i) => s@.index_of_first(c) == Some(i as int),
            None => s@.index_of_first(c) is None,
        },
{
    let n = s.unicode_len();
    let mut i: usize = 0;
    while i < n
        invariant
            n == s@.len(),
            i <= n,
            forall|j: int| 0 <= j < i ==> s@[j] != c,
        decreases n - i,
    {
        if s.get_char(i) == c {
            proof {
                s@.index_of_first_ensures(c);
                assert(s@.contains(c));
                let idx = s@.index_of_first(c)->Some_0;
                assert(!(idx < i) && !(i < idx));
            }
            return Some(i);
        }
        i += 1;
    }
    proof {
        s@.index_of_first_ensures(c);
        if s@.contains(c) {
            let w = choose|k: int| 0 <= k < s@.len() && s@[k] == c;
            assert(s@[w] != c);
        }
    }
    None
}

impl ActorAddress {
    /// Create an address for this protocol tag and host with a freshly
    /// generated random 32-byte peer id.
    pub fn new(proto_id: &str, host: &str) -> (r: Result<Self, Error>)
        ensures
            r matches Ok(a) && a@.proto == proto_id@ && a@.host == host@ && a@.peer.len() == 32,
    {
        let peer_id = PeerId::new()?;
        Ok(ActorAddress { proto_id: proto_id.to_owned(), peer_id, host: host.to_owned() })
    }

    /// Create an address for this protocol tag and host using the given
    /// peer id.
    pub fn new_with_peer_id(proto_id: &str, host: &str, peer_id: PeerId) -> (r: Self)
        ensures
            r@.proto == proto_id@,
            r@.host == host@,
            r@.peer == peer_id@,
    {
        ActorAddress { proto_id: proto_id.to_owned(), peer_id, host: host.to_owned() }
    }

    /// Try to parse an address from its textual form, exactly as
    /// `parse_spec` says.
    pub fn try_parse(value: &str) -> (r: Result<Self, Error>)
        ensures
            r matches Ok(a) ==> parse_spec(value@) == Ok::<AddressView, Error>(a@),
            r matches Err(e) ==> parse_spec(value@) == Err::<AddressView, Error>(e),
    {
        let n = value.unicode_len();
        let ps = match find_first(value, ':') {
            Some(i) => i,
            None => {
                return Err(Error::Malformed);
            },
        };
        let hs = match find_first(value, '@') {
            Some(i) => i,
            None => {
                return Err(Error::Malformed);
            },
        };
        proof {
            value@.index_of_first_ensures(':');
            value@.index_of_first_ensures('@');
        }
        if ps == 0 || hs == 0 || ps >= hs || ps + 1 == hs {
            return Err(Error::Malformed);
        }
        let peer_str = value.substring_char(ps + 1, hs);
        let peer_id = match PeerId::try_parse(peer_str) {
            Ok(p) => p,
            Err(_) => {
                return Err(Error::Id);
            },
        };
        let proto_id = value.substring_char(0, ps).to_owned();
        let host = value.substring_char(hs + 1, n).to_owned();
        Ok(ActorAddress { proto_id, peer_id, host })
    }

    /// This actor's protocol tag.
    pub fn proto_id(&self) -> (r: &str)
        ensures
            r@ == self@.proto,
    {
        self.proto_id.as_str()
    }

    /// This actor's peer id in the router.
    pub fn peer_id(&self) -> (r: &PeerId)
        ensures
            r@ == self@.peer,
    {
        &self.peer_id
    }

    /// This actor's host, or its protocol-specific equivalent.
    pub fn host(&self) -> (r: &str)
        ensures
            r@ == self@.host,
    {
        self.host.as_str()
    }

    /// The canonical textual form, `"<tag>:<hex peer id>@<host>"`.
    pub fn to_text(&self) -> (r: String)
        ensures
            r@ == format_spec(self@),
    {
        proof {
            reveal_strlit(":");
            reveal_strlit("@");
        }
        let mut out = String::new();
        out.append(self.proto_id.as_str());
        out.append(":");
        let peer_hex = self.peer_id.to_hex();
        out.append(peer_hex.as_str());
        out.append("@");
        out.append(self.host.as_str());
        proof {
            assert(":"@ =~= seq![':']);
            assert("@"@ =~= seq!['@']);
            assert(out@ =~= format_spec(self@));
        }
        out
    }
}

/// An address is well-formed when its tag is nonempty and free of both
/// separators, and its peer id is nonempty.
pub open spec fn wf_address(v: AddressView) -> bool {
    &&& v.proto.len() > 0
    &&& v.peer.len() > 0
    &&& forall|i: int| 0 <= i < v.proto.len() ==> v.proto[i] != ':' && v.proto[i] != '@'
}

/// Parsing the textual form of a well-formed address gives the address
/// back.
pub proof fn lemma_address_round_trip(v: AddressView)
    requires
        wf_address(v),
    ensures
        parse_spec(format_spec(v)) == Ok::<AddressView, Error>(v),
{
    let s = format_spec(v);
    let p = v.proto.len() as int;
    let k = v.peer.len() as int;
    let hs = p + 1 + 2 * k;
    crate::hex::lemma_hex_round_trip(v.peer);
    assert(s.len() == p + 1 + 2 * k + 1 + v.host.len());
    assert forall|j: int| 0 <= j < s.len() implies s[j] == if j < p {
        v.proto[j]
    } else if j == p {
        ':'
    } else if j < hs {
        hex_chars(v.peer)[j - p - 1]
    } else if j == hs {
        '@'
    } else {
        v.host[j - hs - 1]
    } by {}
    assert forall|d: int| 0 <= d < 16 implies nibble_char(d) != ':' && nibble_char(d) != '@' by {}
    assert forall|j: int| 0 <= j < p implies s[j] != ':' && s[j] != '@' by {}
    assert forall|j: int| 0 <= j < hs implies s[j] != '@' by {
        if p < j {
            let idx = j - p - 1;
            if idx % 2 == 0 {
                assert(hex_chars(v.peer)[idx] == nibble_char(v.peer[idx / 2] as int / 16));
                assert(0 <= v.peer[idx / 2] as int / 16 < 16);
            } else {
                assert(hex_chars(v.peer)[idx] == nibble_char(v.peer[idx / 2] as int % 16));
                assert(0 <= v.peer[idx / 2] as int % 16 < 16);
            }
        }
    }
    s.index_of_first_ensures(':');
    s.index_of_first_ensures('@');
    assert(s[p] == ':');
    assert(s.contains(':'));
    assert(s[hs] == '@');
    assert(s.contains('@'));
    let ips = s.index_of_first(':')->Some_0;
    let ihs = s.index_of_first('@')->Some_0;
    assert(!(ips < p) && !(p < ips));
    assert(!(ihs < hs) && !(hs < ihs));
    assert(s.subrange(p + 1, hs) =~= hex_chars(v.peer));
    assert(s.take(p) =~= v.proto);
    assert(s.skip(hs + 1) =~= v.host);
    assert(parse_spec(s)->Ok_0 =~= v);
}

/// A string lacking either separator, or with the first `@` at or before
/// the first `:`, is rejected.
pub proof fn lemma_parse_rejects_malformed(s: Seq<char>)
    requires
        s.index_of_first(':') is None || s.index_of_first('@') is None || (
        s.index_of_first(':') matches Some(ps) && s.index_of_first('@') matches Some(hs) && ps
            >= hs),
    ensures
        parse_spec(s) is Err,
{
}

} // verus!

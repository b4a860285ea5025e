//! The wire protocol: length-prefixed request and reply frames on a
//! duplex byte stream.
//!
//! A request frame is `u16_be id_len, id bytes, u32_be msg_len, msg
//! bytes`; a reply frame is `u32_be reply_len, reply bytes`.  All
//! integers are big-endian; there is no alignment, padding, magic number
//! or version byte.  Frame bodies are opaque here: the bridge interprets
//! them through its codec.

use vstd::prelude::*;

verus! {

/// The two big-endian bytes of a 16-bit length.
pub open spec fn be16(n: int) -> Seq<u8> {
    seq![(n / 256) as u8, (n % 256) as u8]
}

/// The four big-endian bytes of a 32-bit length.
pub open spec fn be32(n: int) -> Seq<u8> {
    seq![
        (n / 0x100_0000) as u8,
        (n / 0x1_0000 % 256) as u8,
        (n / 256 % 256) as u8,
        (n % 256) as u8,
    ]
}

/// The value two big-endian bytes denote.
pub open spec fn be16_spec(b0: u8, b1: u8) -> int {
    b0 as int * 256 + b1 as int
}

/// The value four big-endian bytes denote.
pub open spec fn be32_spec(b0: u8, b1: u8, b2: u8, b3: u8) -> int {
    b0 as int * 0x100_0000 + b1 as int * 0x1_0000 + b2 as int * 256 + b3 as int
}

/// Reading back the two big-endian bytes of a 16-bit value gives the
/// value, and conversely.
pub proof fn lemma_be16_round_trip(n: int)
    requires
        0 <= n < 0x1_0000,
    ensures
        be16_spec(be16(n)[0], be16(n)[1]) == n,
{
}

/// Reading back the four big-endian bytes of a 32-bit value gives the
/// value, and conversely.
pub proof fn lemma_be32_round_trip(n: int)
    requires
        0 <= n < 0x1_0000_0000,
    ensures
        be32_spec(be32(n)[0], be32(n)[1], be32(n)[2], be32(n)[3]) == n,
{
}

/// The value of a 16-bit big-endian length read off the stream.
pub fn be16_val(b0: u8, b1: u8) -> (r: u16)
    ensures
        r as int == be16_spec(b0, b1),
{
    (b0 as u16) * 256 + (b1 as u16)
}

/// The value of a 32-bit big-endian length read off the stream.
pub fn be32_val(b0: u8, b1: u8, b2: u8, b3: u8) -> (r: u32)
    ensures
        r as int == be32_spec(b0, b1, b2, b3),
{
    (b0 as u32) * 0x100_0000 + (b1 as u32) * 0x1_0000 + (b2 as u32) * 256 + (b3 as u32)
}

/// A complete request frame for this peer id and message body.
pub open spec fn req_frame(id: Seq<u8>, body: Seq<u8>) -> Seq<u8> {
    be16(id.len() as int) + id + be32(body.len() as int) + body
}

/// A complete reply frame for this reply body.
pub open spec fn reply_frame(body: Seq<u8>) -> Seq<u8> {
    be32(body.len() as int) + body
}

/// Whether a declared body length is within the router's bound.
///
/// The server rejects a request whose declared length exceeds the bound
/// before allocating or reading the body.
pub fn body_len_within(declared: u32, max_msg_size: u32) -> (r: bool)
    ensures
        r == (declared <= max_msg_size),
{
    declared <= max_msg_size
}

/// Build the request frame for this peer id and message body.
///
/// The lengths must fit their length fields; the sender checks its own
/// sizes before framing.
pub fn encode_request(id: &Vec<u8>, body: &Vec<u8>) -> (r: Vec<u8>)
    requires
        id@.len() <= 0xFFFF,
        body@.len() <= 0xFFFF_FFFF,
    ensures
        r@ == req_frame(id@, body@),
{
    let id_len: u16 = id.len() as u16;
    let body_len: u32 = body.len() as u32;
    let mut out: Vec<u8> = Vec::new();
    out.push((id_len / 256) as u8);
    out.push((id_len % 256) as u8);
    let mut i: usize = 0;
    while i < id.len()
        invariant
            i <= id@.len(),
            id@.len() <= 0xFFFF,
            out@ =~= be16(id@.len() as int) + id@.take(i as int),
        decreases id@.len() - i,
    {
        out.push(id[i]);
        proof {
            assert(out@ =~= be16(id@.len() as int) + id@.take(i + 1));
        }
        i += 1;
    }
    proof {
        assert(id@.take(id@.len() as int) =~= id@);
    }
    out.push((body_len / 0x100_0000) as u8);
    out.push((body_len / 0x1_0000 % 256) as u8);
    out.push((body_len / 256 % 256) as u8);
    out.push((body_len % 256) as u8);
    let ghost header = be16(id@.len() as int) + id@ + be32(body@.len() as int);
    proof {
        assert(out@ =~= header);
    }
    let mut j: usize = 0;
    while j < body.len()
        invariant
            j <= body@.len(),
            body@.len() <= 0xFFFF_FFFF,
            out@ =~= header + body@.take(j as int),
        decreases body@.len() - j,
    {
        out.push(body[j]);
        proof {
            assert(out@ =~= header + body@.take(j + 1));
        }
        j += 1;
    }
    proof {
        assert(body@.take(body@.len() as int) =~= body@);
        assert(out@ =~= req_frame(id@, body@));
    }
    out
}

/// Build the reply frame for this reply body.
pub fn encode_reply(body: &Vec<u8>) -> (r: Vec<u8>)
    requires
        body@.len() <= 0xFFFF_FFFF,
    ensures
        r@ == reply_frame(body@),
{
    let body_len: u32 = body.len() as u32;
    let mut out: Vec<u8> = Vec::new();
    out.push((body_len / 0x100_0000) as u8);
    out.push((body_len / 0x1_0000 % 256) as u8);
    out.push((body_len / 256 % 256) as u8);
    out.push((body_len % 256) as u8);
    let ghost header = be32(body@.len() as int);
    proof {
        assert(out@ =~= header);
    }
    let mut j: usize = 0;
    while j < body.len()
        invariant
            j <= body@.len(),
            body@.len() <= 0xFFFF_FFFF,
            out@ =~= header + body@.take(j as int),
        decreases body@.len() - j,
    {
        out.push(body[j]);
        proof {
            assert(out@ =~= header + body@.take(j + 1));
        }
        j += 1;
    }
    proof {
        assert(body@.take(body@.len() as int) =~= body@);
        assert(out@ =~= reply_frame(body@));
    }
    out
}

/// What parsing a complete request frame yields: the peer id and message
/// body, or nothing if the bytes are not one whole frame, or if the
/// declared body length exceeds `max` — in that case the body is rejected
/// without being examined at all.
pub open spec fn parse_request_spec(b: Seq<u8>, max: int) -> Option<(Seq<u8>, Seq<u8>)> {
    if b.len() < 2 {
        None
    } else {
        let id_len = be16_spec(b[0], b[1]);
        if b.len() < 2 + id_len + 4 {
            None
        } else {
            let id = b.subrange(2, 2 + id_len);
            let off = 2 + id_len;
            let msg_len = be32_spec(b[off], b[off + 1], b[off + 2], b[off + 3]);
            if msg_len > max {
                None
            } else if b.len() != off + 4 + msg_len {
                None
            } else {
                Some((id, b.subrange(off + 4, off + 4 + msg_len)))
            }
        }
    }
}

/// Parse a complete request frame, enforcing the body-length bound, as
/// `parse_request_spec` says.
pub fn parse_request(bytes: &Vec<u8>, max_msg_size: u32) -> (r: Option<(Vec<u8>, Vec<u8>)>)
    ensures
        match r {
            Some(p) => parse_request_spec(bytes@, max_msg_size as int) == Some((p.0@, p.1@)),
            None => parse_request_spec(bytes@, max_msg_size as int) is None,
        },
{
    if bytes.len() < 2 {
        return None;
    }
    let id_len = be16_val(bytes[0], bytes[1]) as usize;
    if bytes.len() < 2 + id_len + 4 {
        return None;
    }
    let off = 2 + id_len;
    let msg_len_32 = be32_val(bytes[off], bytes[off + 1], bytes[off + 2], bytes[off + 3]);
    if !body_len_within(msg_len_32, max_msg_size) {
        return None;
    }
    let msg_len = msg_len_32 as usize;
    if bytes.len() - off - 4 != msg_len {
        return None;
    }
    let id = vstd::slice::slice_to_vec(vstd::slice::slice_subrange(bytes.as_slice(), 2, off));
    let body = vstd::slice::slice_to_vec(
        vstd::slice::slice_subrange(bytes.as_slice(), off + 4, bytes.len()),
    );
    Some((id, body))
}

/// What parsing a complete reply frame yields: the reply body, or nothing
/// if the bytes are not one whole frame.
pub open spec fn parse_reply_spec(b: Seq<u8>) -> Option<Seq<u8>> {
    if b.len() < 4 {
        None
    } else {
        let reply_len = be32_spec(b[0], b[1], b[2], b[3]);
        if b.len() != 4 + reply_len {
            None
        } else {
            Some(b.subrange(4, 4 + reply_len))
        }
    }
}

/// Parse a complete reply frame, as `parse_reply_spec` says.
pub fn parse_reply(bytes: &Vec<u8>) -> (r: Option<Vec<u8>>)
    ensures
        match r {
            Some(p) => parse_reply_spec(bytes@) == Some(p@),
            None => parse_reply_spec(bytes@) is None,
        },
{
    if bytes.len() < 4 {
        return None;
    }
    let reply_len = be32_val(bytes[0], bytes[1], bytes[2], bytes[3]) as usize;
    if bytes.len() - 4 != reply_len {
        return None;
    }
    Some(vstd::slice::slice_to_vec(vstd::slice::slice_subrange(bytes.as_slice(), 4, bytes.len())))
}

/// Framing a request and parsing it back gives the id and body again,
/// provided the body is within the size bound.
pub proof fn lemma_request_round_trip(id: Seq<u8>, body: Seq<u8>, max: int)
    requires
        id.len() <= 0xFFFF,
        body.len() <= 0xFFFF_FFFF,
        body.len() <= max,
    ensures
        parse_request_spec(req_frame(id, body), max) == Some((id, body)),
{
    let b = req_frame(id, body);
    lemma_be16_round_trip(id.len() as int);
    lemma_be32_round_trip(body.len() as int);
    assert(b.len() == 2 + id.len() + 4 + body.len());
    assert(b[0] == be16(id.len() as int)[0]);
    assert(b[1] == be16(id.len() as int)[1]);
    assert(be16_spec(b[0], b[1]) == id.len() as int);
    let off = 2 + id.len() as int;
    assert(b.subrange(2, off) =~= id);
    assert(b[off] == be32(body.len() as int)[0]);
    assert(b[off + 1] == be32(body.len() as int)[1]);
    assert(b[off + 2] == be32(body.len() as int)[2]);
    assert(b[off + 3] == be32(body.len() as int)[3]);
    assert(be32_spec(b[off], b[off + 1], b[off + 2], b[off + 3]) == body.len() as int);
    assert(b.subrange(off + 4, off + 4 + body.len() as int) =~= body);
}

/// A request frame whose declared body length exceeds the bound is
/// rejected.
#[verifier::rlimit(60)]
pub proof fn lemma_oversize_request_rejected(id: Seq<u8>, body: Seq<u8>, max: int)
    requires
        id.len() <= 0xFFFF,
        body.len() <= 0xFFFF_FFFF,
        body.len() > max,
    ensures
        parse_request_spec(req_frame(id, body), max) is None,
{
    let b = req_frame(id, body);
    lemma_be16_round_trip(id.len() as int);
    lemma_be32_round_trip(body.len() as int);
    if b.len() >= 2 + be16_spec(b[0], b[1]) + 4 {
        let off = 2 + id.len() as int;
        assert(b[0] == be16(id.len() as int)[0]);
        assert(b[1] == be16(id.len() as int)[1]);
        assert(b[off] == be32(body.len() as int)[0]);
        assert(b[off + 1] == be32(body.len() as int)[1]);
        assert(b[off + 2] == be32(body.len() as int)[2]);
        assert(b[off + 3] == be32(body.len() as int)[3]);
    }
}

/// Framing a reply and parsing it back gives the body again.
pub proof fn lemma_reply_round_trip(body: Seq<u8>)
    requires
        body.len() <= 0xFFFF_FFFF,
    ensures
        parse_reply_spec(reply_frame(body)) == Some(body),
{
    let b = reply_frame(body);
    lemma_be32_round_trip(body.len() as int);
    assert(b[0] == be32(body.len() as int)[0]);
    assert(b[1] == be32(body.len() as int)[1]);
    assert(b[2] == be32(body.len() as int)[2]);
    assert(b[3] == be32(body.len() as int)[3]);
    assert(b.subrange(4, 4 + body.len() as int) =~= body);
}

} // verus!

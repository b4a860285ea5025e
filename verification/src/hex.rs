//! Hexadecimal encoding and decoding of byte strings, verified against a
//! direct specification.
//!
//! Output is lowercase; input is accepted in either case.  This is the
//! textual form of peer ids inside actor addresses.

use vstd::prelude::*;

verus! {

/// The lowercase hex digit for a value below 16.
pub open spec fn nibble_char(d: int) -> char {
    if d == 0 {
        '0'
    } else if d == 1 {
        '1'
    } else if d == 2 {
        '2'
    } else if d == 3 {
        '3'
    } else if d == 4 {
        '4'
    } else if d == 5 {
        '5'
    } else if d == 6 {
        '6'
    } else if d == 7 {
        '7'
    } else if d == 8 {
        '8'
    } else if d == 9 {
        '9'
    } else if d == 10 {
        'a'
    } else if d == 11 {
        'b'
    } else if d == 12 {
        'c'
    } else if d == 13 {
        'd'
    } else if d == 14 {
        'e'
    } else {
        'f'
    }
}

/// The value of a hex digit in either case, or -1 for any other character.
pub open spec fn nibble_val(c: char) -> int {
    if c == '0' {
        0
    } else if c == '1' {
        1
    } else if c == '2' {
        2
    } else if c == '3' {
        3
    } else if c == '4' {
        4
    } else if c == '5' {
        5
    } else if c == '6' {
        6
    } else if c == '7' {
        7
    } else if c == '8' {
        8
    } else if c == '9' {
        9
    } else if c == 'a' || c == 'A' {
        10
    } else if c == 'b' || c == 'B' {
        11
    } else if c == 'c' || c == 'C' {
        12
    } else if c == 'd' || c == 'D' {
        13
    } else if c == 'e' || c == 'E' {
        14
    } else if c == 'f' || c == 'F' {
        15
    } else {
        -1
    }
}

/// The lowercase hex rendering of a byte string: two digits per byte,
/// high nibble first.
pub open spec fn hex_chars(b: Seq<u8>) -> Seq<char> {
    Seq::new(
        b.len() * 2,
        |i: int|
            if i % 2 == 0 {
                nibble_char(b[i / 2] as int / 16)
            } else {
                nibble_char(b[i / 2] as int % 16)
            },
    )
}

/// Whether a character string is well-formed hex: even length, every
/// character a hex digit in either case.
pub open spec fn is_hex_str(s: Seq<char>) -> bool {
    s.len() % 2 == 0 && forall|i: int| 0 <= i < s.len() ==> nibble_val(s[i]) >= 0
}

/// The bytes a well-formed hex string denotes.
pub open spec fn hex_bytes(s: Seq<char>) -> Seq<u8> {
    Seq::new(s.len() / 2, |i: int| (nibble_val(s[2 * i]) * 16 + nibble_val(s[2 * i + 1])) as u8)
}

/// Encoding then decoding a byte string gives the bytes back, and the
/// encoding is always well-formed hex.
pub proof fn lemma_hex_round_trip(b: Seq<u8>)
    ensures
        is_hex_str(hex_chars(b)),
        hex_bytes(hex_chars(b)) =~= b,
{
    let s = hex_chars(b);
    assert forall|i: int| 0 <= i < s.len() implies nibble_val(s[i]) >= 0 by {
        if i % 2 == 0 {
            assert(0 <= b[i / 2] as int / 16 < 16);
        } else {
            assert(0 <= b[i / 2] as int % 16 < 16);
        }
    }
    assert forall|i: int| 0 <= i < b.len() implies hex_bytes(s)[i] == b[i] by {
        assert(s[2 * i] == nibble_char(b[i] as int / 16));
        assert(s[2 * i + 1] == nibble_char(b[i] as int % 16));
        assert(nibble_val(s[2 * i]) == b[i] as int / 16);
        assert(nibble_val(s[2 * i + 1]) == b[i] as int % 16);
    }
}

/// Encode a byte string as lowercase hex.
pub fn encode_hex(bytes: &Vec<u8>) -> (s: String)
    ensures
        s@ == hex_chars(bytes@),
        s@.len() == 2 * bytes@.len(),
{
    let digits = "0123456789abcdef";
    proof {
        reveal_strlit("0123456789abcdef");
    }
    assert(digits@.len() == 16);
    assert(digits.is_ascii());
    assert(forall|d: int| 0 <= d < 16 ==> digits@[d] == nibble_char(d));
    let mut out = String::new();
    let mut i: usize = 0;
    while i < bytes.len()
        invariant
            i <= bytes.len(),
            out@ =~= hex_chars(bytes@).take(2 * i as int),
            digits@.len() == 16,
            digits.is_ascii(),
            forall|d: int| 0 <= d < 16 ==> digits@[d] == nibble_char(d),
        decreases bytes.len() - i,
    {
        let b = bytes[i];
        let hi = (b / 16) as usize;
        let lo = (b % 16) as usize;
        let hs = digits.substring_ascii(hi, hi + 1);
        out.append(hs);
        let ls = digits.substring_ascii(lo, lo + 1);
        out.append(ls);
        proof {
            let whole = hex_chars(bytes@);
            assert(hs@[0] == nibble_char(b as int / 16));
            assert(ls@[0] == nibble_char(b as int % 16));
            assert(whole[2 * i as int] == nibble_char(b as int / 16));
            assert(whole[2 * i as int + 1] == nibble_char(b as int % 16));
            assert(out@ =~= whole.take(2 * (i + 1) as int));
        }
        i += 1;
    }
    proof {
        assert(out@ =~= hex_chars(bytes@));
    }
    out
}

/// The value of one hex digit character, accepting either case.
fn nibble_of(c: char) -> (v: Option<u8>)
    ensures
        v matches Some(x) ==> nibble_val(c) == x as int,
        v is None ==> nibble_val(c) == -1,
{
    match c {
        '0' => Some(0),
        '1' => Some(1),
        '2' => Some(2),
        '3' => Some(3),
        '4' => Some(4),
        '5' => Some(5),
        '6' => Some(6),
        '7' => Some(7),
        '8' => Some(8),
        '9' => Some(9),
        'a' | 'A' => Some(10),
        'b' | 'B' => Some(11),
        'c' | 'C' => Some(12),
        'd' | 'D' => Some(13),
        'e' | 'E' => Some(14),
        'f' | 'F' => Some(15),
        _ => None,
    }
}

/// Decode a hex string, in either case, to its bytes.
///
/// Returns `None` exactly when the string is not well-formed hex: odd
/// length, or any character outside the hex digits.
pub fn decode_hex(s: &str) -> (r: Option<Vec<u8>>)
    ensures
        r matches Some(b) ==> is_hex_str(s@) && b@ == hex_bytes(s@),
        r is None ==> !is_hex_str(s@),
{
    let n = s.unicode_len();
    if n % 2 != 0 {
        return None;
    }
    let mut out: Vec<u8> = Vec::new();
    let mut i: usize = 0;
    while i < n / 2
        invariant
            n == s@.len(),
            n % 2 == 0,
            i <= n / 2,
            out@.len() == i,
            forall|j: int| 0 <= j < 2 * i ==> nibble_val(s@[j]) >= 0,
            forall|j: int|
                0 <= j < i ==> out@[j] == (nibble_val(s@[2 * j]) * 16 + nibble_val(
                    s@[2 * j + 1],
                )) as u8,
        decreases n / 2 - i,
    {
        let c_hi = s.get_char(2 * i);
        let c_lo = s.get_char(2 * i + 1);
        let hi = match nibble_of(c_hi) {
            Some(x) => x,
            None => {
                return None;
            },
        };
        let lo = match nibble_of(c_lo) {
            Some(x) => x,
            None => {
                return None;
            },
        };
        out.push(hi * 16 + lo);
        i += 1;
    }
    proof {
        assert(out@ =~= hex_bytes(s@));
    }
    Some(out)
}

} // verus!

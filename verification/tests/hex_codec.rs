use myriam::hex::{decode_hex, encode_hex};

#[test]
fn encode_is_lowercase_two_digits_per_byte() {
    assert_eq!("", encode_hex(&vec![]));
    assert_eq!("00", encode_hex(&vec![0]));
    assert_eq!("c0ffee", encode_hex(&vec![0xc0, 0xff, 0xee]));
    assert_eq!("0a10ff", encode_hex(&vec![0x0a, 0x10, 0xff]));
}

#[test]
fn decode_accepts_either_case() {
    assert_eq!(vec![0xc0u8, 0xff, 0xee], decode_hex("C0FFEE").unwrap());
    assert_eq!(vec![0xc0u8, 0xff, 0xee], decode_hex("c0ffee").unwrap());
    assert_eq!(Vec::<u8>::new(), decode_hex("").unwrap());
}

#[test]
fn decode_rejects_bad_input() {
    assert!(decode_hex("abc").is_none());
    assert!(decode_hex("zz").is_none());
    assert!(decode_hex("0x10").is_none());
}

#[test]
fn hex_round_trip() {
    let bytes: Vec<u8> = (0u8..=255).collect();
    let text = encode_hex(&bytes);
    assert_eq!(512, text.len());
    assert_eq!(bytes, decode_hex(&text).unwrap());
}

use myriam::address::{ActorAddress, Error, PeerId};

#[test]
fn can_parse() {
    let addr_str = "tcp:c0ffee@example.com";

    let addr = ActorAddress::try_parse(addr_str).unwrap();

    assert_eq!("tcp", addr.proto_id());
    assert_eq!("c0ffee", addr.peer_id().to_hex());
    assert_eq!("example.com", addr.host());
}

#[test]
fn can_parse_host_and_port() {
    let addr_str = "tcp:c0ffee@example.com:8037";

    let addr = ActorAddress::try_parse(addr_str).unwrap();

    assert_eq!("tcp", addr.proto_id());
    assert_eq!("c0ffee", addr.peer_id().to_hex());
    assert_eq!("example.com:8037", addr.host());
}

#[test]
fn empty_address_fails() {
    ActorAddress::try_parse(":@").unwrap_err();
}

#[test]
fn malformed_address_fails() {
    ActorAddress::try_parse("jkfd@fdk:asdj").unwrap_err();
}

#[test]
fn can_generate() {
    let addr = ActorAddress::new("tcp", "127.0.0.1").unwrap();

    assert_eq!("tcp", addr.proto_id());
    assert_eq!("127.0.0.1", addr.host());
    assert_eq!(32, addr.peer_id().len());
    assert_eq!(64, addr.peer_id().to_hex().len());
}

#[test]
fn format_then_parse_round_trips() {
    let peer = PeerId::new_from_bytes(&[0xc0, 0xff, 0xee, 0x01]);
    let addr = ActorAddress::new_with_peer_id("tor", "somewhere.onion:8080", peer);

    let text = addr.to_text();
    assert_eq!("tor:c0ffee01@somewhere.onion:8080", text);

    let parsed = ActorAddress::try_parse(&text).unwrap();
    assert_eq!(addr.proto_id(), parsed.proto_id());
    assert_eq!(addr.host(), parsed.host());
    assert_eq!(addr.peer_id().bytes(), parsed.peer_id().bytes());
}

#[test]
fn uppercase_peer_id_accepted_lowercase_emitted() {
    let addr = ActorAddress::try_parse("tcp:C0FFEE@example.com").unwrap();
    assert_eq!("c0ffee", addr.peer_id().to_hex());
}

#[test]
fn odd_length_peer_id_fails() {
    let err = ActorAddress::try_parse("tcp:abc@example.com").unwrap_err();
    assert_eq!(Error::Id, err);
}

#[test]
fn empty_peer_id_fails() {
    let err = ActorAddress::try_parse("tcp:@example.com").unwrap_err();
    assert_eq!(Error::Malformed, err);
}

#[test]
fn missing_separator_fails() {
    assert_eq!(Error::Malformed, ActorAddress::try_parse("tcp-c0ffee-example.com").unwrap_err());
    assert_eq!(Error::Malformed, ActorAddress::try_parse("tcp:c0ffee-example.com").unwrap_err());
    assert_eq!(Error::Malformed, ActorAddress::try_parse("tcp-c0ffee@example.com").unwrap_err());
}

#[test]
fn peer_id_hex_round_trip() {
    let peer = PeerId::try_parse("00ff10").unwrap();
    assert_eq!(&[0x00u8, 0xff, 0x10][..], peer.bytes());
    assert_eq!(3, peer.len());
    assert!(!peer.is_empty());
    assert_eq!("00ff10", peer.to_hex());
}

#[test]
fn peer_id_rejects_non_hex() {
    PeerId::try_parse("zz").unwrap_err();
    PeerId::try_parse("0g").unwrap_err();
}

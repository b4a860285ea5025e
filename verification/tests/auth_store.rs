use myriam::auth::{AccessDescription, AccessRequest, AccessResolution, AuthStore};
use myriam::models::MessageType;

fn peer_id_a() -> Vec<u8> {
    vec![1u8, 2, 3, 4]
}

#[test]
fn allow_peer() {
    let mut auth = AuthStore::new();

    auth.store_peer(peer_id_a());

    let res = auth.resolve_allow_list(&AccessRequest {
        peer: peer_id_a(),
        addr: None,
        access: AccessDescription::Task,
    });

    assert_eq!(AccessResolution::Accepted, res);
}

#[test]
fn deny_peer() {
    let auth = AuthStore::new();

    let res = auth.resolve_allow_list(&AccessRequest {
        peer: peer_id_a(),
        addr: None,
        access: AccessDescription::Task,
    });

    assert_eq!(AccessResolution::Denied, res);
}

#[test]
fn allow_addr() {
    let mut auth = AuthStore::new();

    let addr = String::from("/ip4/127.0.0.1/tcp/3050");
    auth.store_addr(addr.clone());

    let res = auth.resolve_allow_list(&AccessRequest {
        peer: peer_id_a(),
        addr: Some(addr),
        access: AccessDescription::Task,
    });

    assert_eq!(AccessResolution::Accepted, res);
}

#[test]
fn deny_addr() {
    let auth = AuthStore::new();

    let res = auth.resolve_allow_list(&AccessRequest {
        peer: peer_id_a(),
        addr: Some(String::from("/ip4/127.0.0.1/tcp/3050")),
        access: AccessDescription::Task,
    });

    assert_eq!(AccessResolution::Denied, res);
}

#[test]
fn stores_deduplicate() {
    let mut auth = AuthStore::new();

    auth.store_peer(peer_id_a());
    auth.store_peer(peer_id_a());
    assert!(auth.contains_peer(&peer_id_a()));

    auth.store_addr(String::from("a"));
    auth.store_addr(String::from("a"));
    assert!(auth.contains_addr(&String::from("a")));
    assert!(!auth.contains_addr(&String::from("b")));
}

#[test]
fn access_of_message_type() {
    assert_eq!(
        AccessDescription::Ping,
        AccessDescription::of_message_type(&MessageType::<u32>::Ping)
    );
    assert_eq!(
        AccessDescription::Stop,
        AccessDescription::of_message_type(&MessageType::<u32>::Stop)
    );
    assert_eq!(
        AccessDescription::Task,
        AccessDescription::of_message_type(&MessageType::TaskRequest(1u32))
    );
    assert_eq!(
        AccessDescription::Task,
        AccessDescription::of_message_type(&MessageType::Task(1u32))
    );
}

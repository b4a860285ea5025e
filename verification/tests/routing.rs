use myriam::actors::Mult;
use myriam::local::Status;
use myriam::messaging::{Message, Reply};
use myriam::remote::{bridge_step, HandleOpts};
use myriam::router::{Router, RouterOpts};
use myriam::wire::{encode_reply, encode_request, parse_reply, parse_request};

#[test]
fn attach_then_route() {
    let mut router: Router<u32> = Router::new("tcp", "127.0.0.1:4090", None);

    let addr = router.attach(7);

    assert_eq!("tcp", addr.proto_id());
    assert_eq!("127.0.0.1:4090", addr.host());
    assert_eq!(32, addr.peer_id().len());

    let handle = router.route(addr.peer_id().bytes());
    assert!(matches!(handle, Some(&7)));
}

#[test]
fn revoke() {
    let mut router: Router<u32> = Router::new("tcp", "127.0.0.1:4090", None);

    let addr = router.attach(7);
    assert!(router.route(addr.peer_id().bytes()).is_some());

    let echoed = router.revoke(&addr);
    assert_eq!(addr.peer_id().bytes(), echoed.peer_id().bytes());

    assert!(router.route(addr.peer_id().bytes()).is_none());
}

#[test]
fn revocation_leaves_others_routed() {
    let mut router: Router<u32> = Router::new("tcp", "127.0.0.1:4090", None);

    let addr_a = router.attach(1);
    let addr_b = router.attach(2);

    router.revoke(&addr_a);

    assert!(router.route(addr_a.peer_id().bytes()).is_none());
    assert!(matches!(router.route(addr_b.peer_id().bytes()), Some(&2)));
}

#[test]
fn router_stop() {
    let mut router: Router<u32> = Router::new("tcp", "127.0.0.1:4090", None);

    let addr = router.attach(7);
    router.stop();

    assert!(router.route(addr.peer_id().bytes()).is_none());
}

#[test]
fn unknown_peer_not_routed() {
    let router: Router<u32> = Router::new("tcp", "127.0.0.1:4090", None);

    assert!(router.route(&[0xde, 0xad, 0xbe, 0xef]).is_none());
}

#[test]
fn default_router_opts() {
    let opts = RouterOpts::default();
    assert_eq!(5000, opts.msg_read_timeout());
    assert_eq!(4194304, opts.max_msg_size());

    let opts = RouterOpts::new(1000, 1024);
    assert_eq!(1000, opts.msg_read_timeout());
    assert_eq!(1024, opts.max_msg_size());
}

#[test]
fn host_address_is_kept() {
    let router: Router<u32> = Router::new("unix", "_", Some(RouterOpts::new(1, 2)));
    assert_eq!("_", router.host_address());
    assert_eq!(1, router.opts().msg_read_timeout());
    assert_eq!(2, router.opts().max_msg_size());
}

#[test]
fn router_round_trip() {
    // the server-side path of one request, at the level the router sees
    // it: frame in, id routed, message dispatched, reply framed back
    let mut router: Router<u32> = Router::new("tcp", "127.0.0.1:4090", None);
    let bridge_slot: u32 = 0;
    let addr = router.attach(bridge_slot);

    // the client frames its request; the body is opaque to the router
    let body = vec![5u8];
    let frame = encode_request(&addr.peer_id().bytes().to_vec(), &body);

    // the server parses the frame within its bounds and routes the id
    let (id, routed_body) = parse_request(&frame, router.opts().max_msg_size()).unwrap();
    assert_eq!(body, routed_body);
    assert!(router.route(&id).is_some());

    // the bridge behind the routed id dispatches the decoded message
    let mut mult = Mult { a: 3 };
    let mut status = Status::Ready;
    let opts = HandleOpts::new();
    let (reply, _) = bridge_step(&mut mult, &mut status, &opts, Message::Task(5));
    assert!(matches!(reply, Ok(Reply::Task(15))));

    // the reply body travels back length-prefixed
    let reply_body = vec![15u8];
    let reply_frame = encode_reply(&reply_body);
    assert_eq!(reply_body, parse_reply(&reply_frame).unwrap());
}

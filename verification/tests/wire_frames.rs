use myriam::wire::{
    be16_val, be32_val, body_len_within, encode_reply, encode_request, parse_reply, parse_request,
};

#[test]
fn request_frame_round_trips() {
    let id = vec![0xc0u8, 0xff, 0xee];
    let body = vec![1u8, 2, 3, 4, 5];

    let frame = encode_request(&id, &body);

    assert_eq!(0u8, frame[0]);
    assert_eq!(3u8, frame[1]);
    assert_eq!(&[0xc0, 0xff, 0xee][..], &frame[2..5]);
    assert_eq!(&[0, 0, 0, 5][..], &frame[5..9]);
    assert_eq!(&[1, 2, 3, 4, 5][..], &frame[9..]);

    let (id2, body2) = parse_request(&frame, 1024).unwrap();
    assert_eq!(id, id2);
    assert_eq!(body, body2);
}

#[test]
fn reply_frame_round_trips() {
    let body = vec![9u8, 8, 7];

    let frame = encode_reply(&body);
    assert_eq!(&[0, 0, 0, 3, 9, 8, 7][..], &frame[..]);

    let body2 = parse_reply(&frame).unwrap();
    assert_eq!(body, body2);
}

#[test]
fn size_limit_enforced() {
    // a request declaring one byte more than the bound is rejected
    let id = vec![0xaau8; 32];
    let max: u32 = 16;
    let body = vec![0u8; 17];

    let frame = encode_request(&id, &body);
    assert!(parse_request(&frame, max).is_none());

    // a declared length at the bound passes
    let body = vec![0u8; 16];
    let frame = encode_request(&id, &body);
    assert!(parse_request(&frame, max).is_some());
}

#[test]
fn oversize_declaration_rejected_without_body() {
    // header declares a huge body that never arrives; the parse rejects
    // on the declared length alone
    let mut frame = vec![0u8, 1, 0xab];
    frame.extend_from_slice(&[0xff, 0xff, 0xff, 0xff]);
    assert!(parse_request(&frame, 4096).is_none());
}

#[test]
fn truncated_frames_rejected() {
    assert!(parse_request(&vec![0u8], 1024).is_none());
    assert!(parse_request(&vec![0u8, 2, 0xab], 1024).is_none());
    assert!(parse_reply(&vec![0u8, 0, 0, 2, 1]).is_none());
}

#[test]
fn big_endian_lengths() {
    assert_eq!(0x0102u16, be16_val(0x01, 0x02));
    assert_eq!(0xffffu16, be16_val(0xff, 0xff));
    assert_eq!(0x01020304u32, be32_val(0x01, 0x02, 0x03, 0x04));

    assert!(body_len_within(4096, 4096));
    assert!(!body_len_within(4097, 4096));
}

use flo_relay::frame::{
    decode_frame, encode_frame, leave_ack_frame, parse_scoped_chat, private_chat_frame, Decoded,
    DecodeError, EncodeError, Frame, CHAT_FROM_HOST, LEAVE_ACK,
};
use flo_relay::text::push_decimal;

#[test]
fn encode_then_decode_gives_the_frame_back() {
    let f = Frame { type_id: 0x0C, payload: vec![1, 2, 3] };
    let mut bytes = encode_frame(&f).unwrap();
    assert_eq!(bytes, vec![0xF7, 0x0C, 7, 0, 1, 2, 3]);
    bytes.extend_from_slice(&[9, 9]);
    match decode_frame(&bytes).unwrap() {
        Decoded::Complete(g, n) => {
            assert_eq!(n, 7);
            assert_eq!(g.type_id, 0x0C);
            assert_eq!(g.payload, vec![1, 2, 3]);
        }
        Decoded::Incomplete => panic!("expected a whole frame"),
    }
}

#[test]
fn decode_waits_for_the_whole_frame() {
    assert!(matches!(decode_frame(&[0xF7, 0x0C]), Ok(Decoded::Incomplete)));
    assert!(matches!(decode_frame(&[0xF7, 0x0C, 6, 0, 1]), Ok(Decoded::Incomplete)));
}

#[test]
fn decode_rejects_bad_headers() {
    assert!(matches!(decode_frame(&[0x00, 0x0C, 4, 0]), Err(DecodeError::BadSignature)));
    assert!(matches!(decode_frame(&[0xF7, 0x0C, 3, 0]), Err(DecodeError::BadLength)));
}

#[test]
fn encode_rejects_oversized_payload() {
    let f = Frame { type_id: 1, payload: vec![0; 0xFFFF - 3] };
    assert!(matches!(encode_frame(&f), Err(EncodeError::PayloadTooLarge)));
    let g = Frame { type_id: 1, payload: vec![0; 0xFFFF - 4] };
    let b = encode_frame(&g).unwrap();
    assert_eq!(&b[..4], &[0xF7, 1, 0xFF, 0xFF]);
}

#[test]
fn scoped_chat_is_read() {
    let p = vec![2, 5, 6, 3, 0x20, 0, 0, 0, 0, b'h', b'i', 0];
    let c = parse_scoped_chat(&p).unwrap();
    assert_eq!(c.from, 3);
    assert_eq!(c.text, b"hi".to_vec());
    // plain message flag
    let q = vec![1, 5, 3, 0x10, b'h', b'i', 0];
    assert!(parse_scoped_chat(&q).is_none());
    // no terminating zero
    let r = vec![1, 5, 3, 0x20, 0, 0, 0, 0, b'h'];
    assert!(parse_scoped_chat(&r).is_none());
}

#[test]
fn private_chat_frame_layout() {
    let f = private_chat_frame(2, b"ok").unwrap();
    assert_eq!(f.type_id, CHAT_FROM_HOST);
    assert_eq!(f.payload, vec![1, 2, 2, 0x20, 5, 0, 0, 0, b'o', b'k', 0]);
    assert!(private_chat_frame(2, b"a\0b").is_none());
}

#[test]
fn leave_ack_is_empty() {
    let f = leave_ack_frame();
    assert_eq!(f.type_id, LEAVE_ACK);
    assert!(f.payload.is_empty());
}

#[test]
fn decimal_rendering() {
    let mut s = String::from("n=");
    push_decimal(&mut s, 0);
    assert_eq!(s, "n=0");
    let mut t = String::new();
    push_decimal(&mut t, 1234567890);
    assert_eq!(t, "1234567890");
    let mut u = String::new();
    push_decimal(&mut u, 10);
    assert_eq!(u, "10");
}

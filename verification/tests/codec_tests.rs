use transport_bridge::bytebuf::{buf_is_empty, buf_new, chunk_to_vec};
use transport_bridge::codec::{decode, encode};

#[test]
fn decode_empty_buffer_yields_nothing() {
    let mut src = buf_new();
    assert!(decode(&mut src).is_none());
    assert!(buf_is_empty(&src));
}

#[test]
fn decode_drains_everything_as_one_chunk() {
    let mut src = buf_new();
    encode(&vec![1u8, 2, 3, 4], &mut src);
    let chunk = decode(&mut src).expect("non-empty buffer must decode");
    assert_eq!(chunk_to_vec(&chunk), vec![1u8, 2, 3, 4]);
    assert!(buf_is_empty(&src));
    assert!(decode(&mut src).is_none());
}

#[test]
fn encode_appends_in_order() {
    let mut dst = buf_new();
    encode(&vec![10u8, 11], &mut dst);
    encode(&vec![12u8], &mut dst);
    encode(&vec![], &mut dst);
    let chunk = decode(&mut dst).expect("buffer holds bytes");
    assert_eq!(chunk_to_vec(&chunk), vec![10u8, 11, 12]);
}

#[test]
fn encode_decode_round_trip() {
    let payload = vec![0u8, 255, 7, 7, 0];
    let mut wire = buf_new();
    encode(&payload, &mut wire);
    let chunk = decode(&mut wire).expect("round trip");
    assert_eq!(chunk_to_vec(&chunk), payload);
}

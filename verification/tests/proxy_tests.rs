use transport_bridge::bridge::TcpTransportMessage;
use transport_bridge::proxy::{close_request, get_extra_info, write_request};

#[test]
fn write_request_carries_the_payload() {
    match write_request(vec![1, 2, 3]) {
        TcpTransportMessage::Bytes(d) => assert_eq!(d, vec![1, 2, 3]),
        TcpTransportMessage::Close => panic!("expected a data message"),
    }
}

#[test]
fn close_request_is_a_close_message() {
    assert!(matches!(close_request(), TcpTransportMessage::Close));
}

#[test]
fn get_extra_info_returns_the_default() {
    assert_eq!(get_extra_info(Some(5u32)), Some(5));
    assert_eq!(get_extra_info::<u32>(None), None);
}

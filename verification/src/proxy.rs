//! The pure side of the host-facing proxy operations.
//!
//! `write` and `close` hand a message to the outbound queue; what they
//! compute — the message itself — is built here. `get_extra_info` is a
//! stub: this transport exposes no peer address or socket options, so the
//! caller's default comes back unchanged. The queue send itself, and the
//! drain signal the host awaits, live with the driver and the drain slot.

use vstd::prelude::*;

use crate::bridge::TcpTransportMessage;

verus! {

/// The queue message a host `write(data)` call enqueues.
pub fn write_request(data: Vec<u8>) -> (m: TcpTransportMessage)
    ensures
        m matches TcpTransportMessage::Bytes(d) && d@ == data@,
{
    TcpTransportMessage::Bytes(data)
}

/// The queue message a host `close()` call enqueues; close is idempotent
/// because a second such message leaves the closing bridge unchanged.
pub fn close_request() -> (m: TcpTransportMessage)
    ensures
        m is Close,
{
    TcpTransportMessage::Close
}

/// `get_extra_info`: this proxy exposes nothing beyond a stub, so the
/// provided default is returned as it came.
pub fn get_extra_info<T>(default: Option<T>) -> (r: Option<T>)
    ensures
        r == default,
{
    default
}

} // verus!

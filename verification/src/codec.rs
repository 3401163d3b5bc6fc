//! The framing codec: a pass-through transformation between the wire buffers
//! and the byte chunks the bridge hands to the host.
//!
//! There are no message boundaries. Decoding drains everything the read
//! buffer has accumulated and presents it as one chunk; an empty buffer
//! yields nothing and is not an error. Encoding appends a payload's raw
//! bytes to the outbound wire buffer and never fails.

use vstd::prelude::*;

use crate::bytebuf::{buf_data, buf_freeze, buf_is_empty, buf_split, chunk_data};

verus! {

/// Decode one unit from the accumulated read buffer: if the buffer is
/// non-empty, all of it is consumed and returned as a single chunk;
/// an empty buffer produces no unit.
pub fn decode(src: &mut bytes::BytesMut) -> (r: Option<bytes::Bytes>)
    ensures
        buf_data(*final(src)).len() == 0,
        match r {
            Some(chunk) => chunk_data(chunk) == buf_data(*old(src)) && buf_data(
                *old(src),
            ).len() > 0,
            None => buf_data(*old(src)).len() == 0,
        },
{
    if !buf_is_empty(src) {
        let taken = buf_split(src);
        Some(buf_freeze(taken))
    } else {
        None
    }
}

/// Encode one outbound payload: append its raw bytes to the wire buffer.
pub fn encode(msg: &Vec<u8>, dst: &mut bytes::BytesMut)
    ensures
        buf_data(*final(dst)) == buf_data(*old(dst)) + msg@,
{
    crate::bytebuf::buf_extend(dst, msg.as_slice());
}

} // verus!

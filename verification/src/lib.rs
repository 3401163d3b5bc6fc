//! A verified model of a byte-stream transport bridge: the state machine that
//! owns one live TCP connection on the reactor side, multiplexes inbound bytes
//! and outbound write requests, implements readiness-based backpressure, and
//! decides which host callbacks to invoke in which order.
//!
//! The reactor, the host runtime's completion signals, and the socket itself
//! are external collaborators: every decision the bridge makes is a verified
//! function from plain values (state and readiness events) to plain values
//! (next state and actions), and the driver around it performs the I/O.

pub mod bridge;
pub mod bytebuf;
pub mod codec;
pub mod drain;
pub mod errors;
pub mod machine;
pub mod proxy;

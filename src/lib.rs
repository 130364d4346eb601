//! Driver logic for a walking-pad treadmill spoken to over a BLE attribute
//! transport: command framing with an additive checksum, decoding of the
//! device's state notifications, spacing of outbound commands, subscriber
//! fan-out and the validation done at the HTTP boundary.

pub mod codec;
pub mod state;
pub mod limiter;
pub mod session;
pub mod http;

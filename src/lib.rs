//! A WebRTC signaling relay: the pairing room, the routing of protocol
//! envelopes between two peers, and the STUN message header encoder.

pub mod json;
pub mod laws;
pub mod protocol;
pub mod room;
pub mod stun;

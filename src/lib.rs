//! Marshaling layer between a host application and a native call engine:
//! fixed-capacity boundary records, the event bridge that turns engine
//! events into host callbacks, a latest-wins cache of decoded video frames,
//! and the command surface of a call session.

pub mod codec;
pub mod device;
pub mod endpoint;
pub mod media;
pub mod bridge;
pub mod signaling;

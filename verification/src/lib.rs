//! The logic of a small screen sharing tool: the wire format, the relay server, the client's
//! state, its screens, and the bookkeeping around capturing, encoding and showing frames.

pub mod client;
pub mod codec;
pub mod demo;
pub mod h264;
pub mod picture;
pub mod protocol;
pub mod server;
pub mod text;
pub mod wire;

//! The client: what it sends, receives and shows.

pub mod app;
pub mod h264_encoder;
pub mod media_foundation;
pub mod message;
pub mod receive;
pub mod share;
pub mod stats;
pub mod stream;
pub mod video;
pub mod view;

//! The classic client: one WebSocket, raw Opus frames of 20 ms, and a codec loaded at run time.

pub mod client;
pub mod codec;
pub mod frames;
pub mod link;
pub mod message;
pub mod resample;

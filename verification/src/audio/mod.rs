//! Audio: codec policy, buffering and the capture and playback pipelines.
//!
//! Device callbacks only move samples through lock-free rings; capture and playback each have a
//! worker of their own.

pub mod buffer;
pub mod capture;
pub mod opus;
pub mod output;
pub mod pipeline;
pub mod playback;
pub mod ring;

pub use crate::audio::playback::PlaybackMsg;

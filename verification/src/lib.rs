//! Verified core of a realtime voice client.
//!
//! The modules hold what the client decides and computes: wire formats, session and
//! reconnection state machines, packet protection, audio framing and device identity.
//! Sockets, devices and clocks live outside and exchange plain values with this crate.

pub mod audio;
pub mod bytes;
pub mod calendar;
pub mod classic;
pub mod cli;
pub mod clock;
pub mod crash;
pub mod crypto;
pub mod error;
pub mod identity;
pub mod json;
pub mod ota;
pub mod protocol;
pub mod realtime;
pub mod session;
pub mod supervisor;
pub mod text;

pub use supervisor::RealtimeVoice;

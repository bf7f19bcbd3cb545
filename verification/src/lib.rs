//! A verified core of a screen/audio recording pipeline.
//!
//! Frames captured from a screen, a camera or a microphone flow through a
//! bounded channel into an encoding sink that owns a container writer, one
//! mandatory video encoder and an optional audio encoder.  The sink enforces
//! a strict lifecycle: every track is registered before the container header
//! is committed, packets are written only between header and trailer, and the
//! trailer is committed exactly once.  A session controller resolves a capture
//! target, assembles the sink and exposes a stop-once handle.

pub mod container;
pub mod encoder;
pub mod errors;
pub mod frame;
pub mod mp4;
pub mod path;
pub mod pipeline;
pub mod session;

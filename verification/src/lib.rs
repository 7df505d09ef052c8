//! Core of a music bridge: decoded stereo audio of a remote playback session
//! is resampled, queued and handed to a voice transport that pulls raw PCM,
//! while the control channel that makes this device selectable is kept alive
//! across failures.
//!
//! Nothing in this crate performs I/O, waits or spawns. Samples are held as
//! the bit patterns of 32-bit IEEE-754 numbers, the resampling itself and
//! every network call are the embedding program's work: the types here decide
//! what is to be done next and keep the buffers.

pub mod channel;
pub mod config;
pub mod error;
pub mod frame;
pub mod metrics;
pub mod player;
pub mod presence;
pub mod session;
pub mod sink;
pub mod stream;

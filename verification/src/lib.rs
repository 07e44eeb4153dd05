//! Core of a local music player's playback engine: transport state, queue
//! and seek bookkeeping, volume handling, the sample ring between the decode
//! side and the output callback, and the channel-mix / resample planning that
//! adapts decoded audio to the output device's format.
//!
//! Sample data is carried as the raw bit words of 32-bit IEEE 754 float
//! samples; positions and seek targets are carried in integer milliseconds
//! and frames. The host-facing shell converts at the edges.

pub mod catalog;
pub mod decoder;
pub mod dsp;
pub mod engine;
pub mod output;
pub mod paths;
pub mod ring;
pub mod state;
pub mod timing;
pub mod volume;

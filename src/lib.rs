//! Speech-to-text service core: turns uploaded audio bytes into PCM samples
//! for an inference engine, and shapes the engine's text segments into the
//! final transcript.
pub mod audio;
pub mod config;
pub mod error;
pub mod transcript;
mod wav_types;

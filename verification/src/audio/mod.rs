//! The decision logic of the audio engine: buses, playback state, the
//! streaming ring buffer, decoded-audio checks, resampling plans and the
//! voice limit.
pub mod bus;
pub mod error;
pub mod config;
pub mod decode;
pub mod stream;
pub mod ring;
pub mod runtime;

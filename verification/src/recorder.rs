//! The speech-gated recorder and the parts it is made of.

pub mod artifact;
pub mod chunker;
pub mod devices;
pub mod gating;
pub mod timeline;
pub mod vad;

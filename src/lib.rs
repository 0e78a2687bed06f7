//! Decision logic of a text-to-speech pipeline stage: the configuration
//! store, the lazily initialised backend session, capability negotiation
//! and the per-unit transform from UTF-8 text to little-endian float samples.
pub mod audio;
pub mod caps;
pub mod config;
pub mod session;
pub mod text;
pub mod transform;

//! A configurable HTTP request relay: a registry of named presets and the
//! decisions that compose and conclude one relayed call.

pub mod preset;
pub mod registry;
pub mod laws;
pub mod relay;

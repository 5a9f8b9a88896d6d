//! The audio engine's decision logic.

pub mod devices;
pub mod mutemask;
pub mod peaks;
pub mod playback;
pub mod recorder;
pub mod settings;

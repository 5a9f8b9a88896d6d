//! Logic behind the renderer-facing commands.

pub mod app;
pub mod audio;
pub mod edit;
pub mod export;

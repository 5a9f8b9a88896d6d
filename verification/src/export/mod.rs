//! Export formats, platform presets, and the encode plan.

pub mod encode;
pub mod fade;
pub mod format;

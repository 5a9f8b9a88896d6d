//! SundayStudio core: the decision logic of a podcast producer — capture-rate
//! selection, mute masks, presets, export planning, templates and deep-link
//! path policy — stated and proved with Verus.

pub mod account;
pub mod ai;
pub mod commands;
pub mod dsp;
pub mod error;
pub mod export;
pub mod project;
pub mod services;
pub mod text;
pub mod audio;

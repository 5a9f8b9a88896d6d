//! The bundled DSP: the preset catalogues and filter kinds.

pub mod biquad;
pub mod chain;
pub mod eq;
pub mod loudness;
pub mod master;

//! The multi-track recorder's control logic.

pub mod command;
pub mod meters;
pub mod monitor;
pub mod rate;
pub mod session;
pub mod writer;

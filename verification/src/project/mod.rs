//! Project-level logic: the quick-start templates and the project folder's
//! format rules.

pub mod registry;
pub mod scast;
pub mod templates;

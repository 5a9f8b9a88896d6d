//! Cross-cutting logic that belongs to no single domain module.

pub mod deeplink;

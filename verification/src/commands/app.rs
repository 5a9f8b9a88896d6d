//! The backend identity the home screen shows.

use vstd::prelude::*;

verus! {

/// Identity of the running backend.
#[derive(Debug, Clone, PartialEq)]
pub struct AppInfo {
    /// Product name.
    pub name: String,
    /// Version of the app.
    pub version: String,
    /// Version of the desktop runtime backing this build.
    pub tauri_version: String,
    /// Target OS the backend was compiled for.
    pub platform: String,
    /// CPU architecture.
    pub arch: String,
    /// A friendly greeting, human-readable proof of life.
    pub greeting: String,
}

} // verus!

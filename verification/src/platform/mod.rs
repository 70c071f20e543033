//! The platform key table used by the command-line tools.
pub mod macos;

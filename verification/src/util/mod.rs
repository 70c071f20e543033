//! Helpers behind the command-line tools: listing application names,
//! listing and probing keys, and managing the daemon process.
pub mod sorting;
pub mod platform;

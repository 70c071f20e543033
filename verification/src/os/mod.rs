//! Per-platform key tables and event-handling decisions.
pub mod linux;
pub mod macos;
pub mod windows;

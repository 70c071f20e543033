//! The chord-based lookup used by the daemon event handlers.
pub mod state;

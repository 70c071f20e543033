//! The platform-independent parts of the `apps`, `keys` and `server`
//! commands.
pub mod appnames_cmd;
pub mod keys_cmd;
pub mod server_cmd;

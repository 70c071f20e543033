//! Key remapping: configuration parsing, rule compilation and runtime lookup.
pub mod config;
pub mod config_path;
pub mod indexmap_spec;
pub mod key_names;
pub mod key_table;
pub mod lemmas;
pub mod mapping_cache;
pub mod os;
pub mod platform;
pub mod text;
pub mod state;
pub mod daemon;
pub mod util;
pub mod laws;
pub mod diagnostics;

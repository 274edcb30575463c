//! Command-line front end for a binding generator: argument rules, `key=value`
//! parsing, and the per-crate lookup of configuration and interface files.
pub mod key_val;
pub mod text;
pub mod paths;
pub mod toml_file;
pub mod supplier;
pub mod laws;
pub mod cli;

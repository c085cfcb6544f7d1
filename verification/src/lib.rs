//! Generator for reverse-proxy virtual-host files and certificate-request
//! files: one pass that loads a hostname-to-backend mapping, rotates the
//! previous generation of output into timestamped backup directories, and
//! renders one proxy file and one certificate-request file per mapping entry.
//!
//! The library holds the verified logic: template rendering, configuration
//! parsing, the rotation plans and the rotation safety argument. Executing
//! the planned filesystem operations is left to the embedding program.

pub mod config;
pub mod plan;
pub mod render;
pub mod rotation;
pub mod text;
pub mod toml_load;

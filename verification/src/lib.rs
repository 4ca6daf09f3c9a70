//! A verified core for a systemd generator that synthesizes unit files
//! from a declarative environment manifest.
//!
//! The library holds the decision logic of the generator: privilege
//! classification, output-directory resolution, template and manifest
//! location, manifest version policy, unit synthesis, and the
//! first-success search used by the self-installer. Filesystem access,
//! environment inspection and argument parsing live outside the library
//! and hand it plain values.

pub mod config;
pub mod init;
pub mod install;
pub mod locate;
pub mod manifest;
pub mod paths;
pub mod scope;
pub mod synth;

pub use config::Privilege;

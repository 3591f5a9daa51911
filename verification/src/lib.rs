//! Switch an npm installation between a public "home" registry and a
//! private "work" registry.
//!
//! The library holds the verified logic: selecting a profile from user
//! input, resolving the registry URL for that profile (including the
//! decisions around the persisted work-registry config file), and
//! building the command arguments and console messages. The surrounding
//! binary performs the actual console, file and subprocess work and
//! feeds the results back in as plain values.

pub mod applier;
pub mod laws;
pub mod profile;
pub mod resolver;
pub mod text;

pub use profile::Profile;

//! Removes plugin configurations from a semantic-release manifest.
//!
//! The library holds the manifest as plain values, decides which plugin
//! entries stay, tracks whether anything changed and decides where (and
//! whether) the result is written back. Reading, parsing, printing and
//! writing files happen around it.

pub mod configuration;
pub mod error;
pub mod json;
pub mod laws;
pub mod lookup;
pub mod manifest;
mod outside;

pub use configuration::{SemanticReleaseConfiguration, WriteDestination};
pub use error::Error;
pub use json::JsonValue;
pub use manifest::{
    ModifiedFlag, SemanticReleaseManifest, SemanticReleasePluginConfiguration, WriteTo,
};

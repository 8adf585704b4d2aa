//! A single-file project container: a fixed header, a serialized manifest and
//! a compressed payload, with a loader that validates every length, offset and
//! text encoding before it hands anything out.

pub mod batch;
pub mod error;
pub mod compression;
pub mod container;
pub mod manifest;
pub mod loader;
pub mod laws;

pub use crate::container::GyoshoFile;
pub use crate::error::{LoadError, WriteError};
pub use crate::loader::{LoadedProject, ProjectLoader};
pub use crate::manifest::{AssetEntry, AssetKind, Manifest};

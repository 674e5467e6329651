//! The save of the PC release: its metadata and its container.

pub mod file;
pub mod kind;
pub mod metadata;

pub use file::SaveFile;
pub use kind::SaveType;
pub use metadata::SaveMetadata;

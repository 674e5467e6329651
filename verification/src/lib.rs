//! Conversion of decrypted PlayStation 4 saves of *Horizon Forbidden West*
//! into the save container of the PC release.
//!
//! The crate holds the two binary codecs (the `param.sfo` parameter table and
//! the `GGDS` container) and the resolution of the save's metadata. Every
//! function works on bytes and plain values that are already in memory.

pub mod bytes;
pub mod cli;
pub mod convert;
pub mod error;
pub mod input;
pub mod save;
pub mod sfo;
pub mod utils;

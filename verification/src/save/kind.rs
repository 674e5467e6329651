//! The label of a save.

use crate::utils::text::{lowercase, starts_with, to_lowercase};
use vstd::prelude::*;
use vstd::string::*;

verus! {

/// Whether the game wrote the save by itself or the player asked for it. The
/// label is derived from the file name, without regard to the case of its
/// letters, and is not part of the container.
#[derive(Debug, Clone, Copy, PartialEq, Eq, Structural)]
pub enum SaveType {
    Autosave,
    Manual,
}

impl SaveType {
    /// The label of a name that is in lowercase already: `Autosave` where it
    /// begins with `autosave`.
    pub open spec fn of_lowercase_name(file_name: Seq<char>) -> SaveType {
        if "autosave"@.is_prefix_of(file_name) {
            SaveType::Autosave
        } else {
            SaveType::Manual
        }
    }

    /// The label of a file name: `Autosave` where its lowercase form begins
    /// with `autosave`.
    pub open spec fn of_file_name(file_name: Seq<char>) -> SaveType {
        Self::of_lowercase_name(lowercase(file_name))
    }

    /// The name of a label.
    pub open spec fn spec_name(self) -> Seq<char> {
        match self {
            SaveType::Autosave => "Autosave"@,
            SaveType::Manual => "Manual"@,
        }
    }

    /// Derives the label from a name that is in lowercase already.
    pub fn from_lowercase_name(file_name: &str) -> (r: SaveType)
        ensures
            r == Self::of_lowercase_name(file_name@),
    {
        if starts_with(file_name, "autosave") {
            SaveType::Autosave
        } else {
            SaveType::Manual
        }
    }

    /// Derives the label from a file name, whatever the case of its letters.
    pub fn from_file_name(file_name: &str) -> (r: SaveType)
        ensures
            r == Self::of_file_name(file_name@),
    {
        let lowered = to_lowercase(file_name);
        SaveType::from_lowercase_name(lowered.as_str())
    }

    /// Gives the name of the label.
    pub fn to_string(&self) -> (r: String)
        ensures
            r@ == self.spec_name(),
    {
        match self {
            SaveType::Autosave => String::from_str("Autosave"),
            SaveType::Manual => String::from_str("Manual"),
        }
    }
}

} // verus!

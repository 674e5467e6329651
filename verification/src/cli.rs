//! What the user may override of a save's metadata.

use crate::save::SaveType;
use vstd::prelude::*;

verus! {

/// The overrides of the command line; a field that is `None` leaves the
/// metadata as it was resolved. `image` holds the bytes of the picture.
#[derive(Debug, Clone, PartialEq, Eq)]
pub struct OverrideArgs {
    pub save_type: Option<SaveType>,
    pub name: Option<String>,
    pub title: Option<String>,
    pub sub_title: Option<String>,
    pub image: Option<Vec<u8>>,
}

impl OverrideArgs {
    /// Overrides that override nothing.
    pub fn none() -> (r: OverrideArgs)
        ensures
            r.save_type is None,
            r.name is None,
            r.title is None,
            r.sub_title is None,
            r.image is None,
    {
        OverrideArgs { save_type: None, name: None, title: None, sub_title: None, image: None }
    }
}

} // verus!

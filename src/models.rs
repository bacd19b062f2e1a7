use vstd::prelude::*;

verus! {

/// One row of the catalog.
#[derive(Clone, Debug, PartialEq, Eq)]
pub struct Dog {
    /// Primary key, positive and unique in the store.
    pub id: i32,
    pub name: String,
    /// Path of the picture, relative to the static asset directory.
    pub image_path: String,
}

} // verus!

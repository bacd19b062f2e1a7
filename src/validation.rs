use vstd::prelude::*;
use crate::errors::UserError;

verus! {

/// Smallest id that the single-record lookup accepts.
pub const MIN_DOG_ID: i32 = 1;

/// Largest id that the single-record lookup accepts.
pub const MAX_DOG_ID: i32 = 150;

/// Whether `id` lies in the range that the single-record lookup accepts.
pub open spec fn id_in_range(id: int) -> bool {
    MIN_DOG_ID <= id <= MAX_DOG_ID
}

/// The path parameters of `GET /api/dogs/{id}`.
#[derive(Clone, Copy, Debug, PartialEq, Eq, Structural)]
pub struct DogEndpointPath {
    pub id: i32,
}

impl DogEndpointPath {
    pub fn new(id: i32) -> (r: DogEndpointPath)
        ensures
            r.id == id,
    {
        DogEndpointPath { id }
    }

    /// Checks the declared range of the id, before any store access.
    pub fn validate(&self) -> (r: Result<(), UserError>)
        ensures
            id_in_range(self.id as int) ==> r == Ok::<(), UserError>(()),
            !id_in_range(self.id as int) ==> r == Err::<(), UserError>(UserError::ValidationError),
    {
        if MIN_DOG_ID <= self.id && self.id <= MAX_DOG_ID {
            Ok(())
        } else {
            Err(UserError::ValidationError)
        }
    }
}

} // verus!

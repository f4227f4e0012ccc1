use crate::random::random_uuid;
use vstd::prelude::*;

verus! {

/// A display name.
pub struct Name(pub String);

/// An opaque unique identity: a random UUID in its hyphenated text form.
pub struct ID(pub String);

impl ID {
    /// A fresh random identity.
    pub fn fresh() -> (r: ID)
        ensures
            r.0@.len() == 36,
    {
        ID(random_uuid())
    }

    /// A copy of this identity.
    pub fn duplicate(&self) -> (r: ID)
        ensures
            r.0@ == self.0@,
    {
        ID(self.0.clone())
    }
}

impl Default for ID {
    fn default() -> (r: ID)
        ensures
            r.0@.len() == 36,
    {
        ID::fresh()
    }
}

/// Marks a star whose planetary system has not been generated yet.
pub struct PendingGeneration;

/// The star system a viewer has selected, if any.
pub struct SelectedSystem(pub Option<ID>);

} // verus!

use vstd::prelude::*;
use crate::env::Environment;
use crate::error::Error;

verus! {

/// A record that can be initialized from an environment snapshot.
///
/// An implementation describes its fields with a [`crate::Catalog`], runs
/// [`crate::resolve`] on it and moves each resolved [`crate::Value`] into
/// the field it belongs to.
pub trait Setting: Sized {
    /// Builds the record, or returns the error of the first field, in
    /// declaration order, that cannot be resolved.
    fn init(env: &Environment) -> Result<Self, Error>;
}

} // verus!

//! Thin newtype wrappers that let the crate attach behaviour to outside values.

use vstd::prelude::*;

verus! {

/// Wraps a value.
pub struct Extension<T>(pub T);

impl<T> Extension<T> {
    /// The wrapped value.
    pub fn into(self) -> (r: T)
        ensures
            r == self.0,
    {
        self.0
    }
}

/// Wraps a value that can be copied.
#[derive(Clone)]
pub struct ExtensionCl<T: Clone>(pub T);

impl<T: Clone> ExtensionCl<T> {
    /// The wrapped value.
    pub fn into(self) -> (r: T)
        ensures
            r == self.0,
    {
        self.0
    }
}

impl<T: Clone> From<T> for ExtensionCl<T> {
    fn from(value: T) -> (r: ExtensionCl<T>)
        ensures
            r.0 == value,
    {
        ExtensionCl(value)
    }
}

impl<T: Clone> vstd::std_specs::convert::FromSpecImpl<T> for ExtensionCl<T> {
    open spec fn obeys_from_spec() -> bool {
        true
    }

    open spec fn from_spec(v: T) -> ExtensionCl<T> {
        ExtensionCl(v)
    }
}

} // verus!

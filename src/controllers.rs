//! The route groups of the web API and the paths they are mounted at.

use vstd::prelude::*;

verus! {

/// The route group of resource texts.
pub struct ResourcesController;

impl ResourcesController {
    /// The path the group is mounted at.
    pub fn path(&self) -> (r: &'static str)
        ensures
            r@ == "/res"@,
    {
        "/res"
    }
}

/// The route group of users.
pub struct UsersController;

impl UsersController {
    /// The path the group is mounted at.
    pub fn path(&self) -> (r: &'static str)
        ensures
            r@ == "/users"@,
    {
        "/users"
    }
}

} // verus!

//! The greeting endpoint: it answers with the authenticated user's own name.

use vstd::prelude::*;
use crate::auth::User;

verus! {

/// The general endpoints of the service.
pub struct GeneralApi {}

impl GeneralApi {
    /// The greeting's body: the caller's username.
    pub fn hello(user: &User) -> (r: String)
        ensures
            r@ == user.username@,
    {
        user.username.clone()
    }
}

} // verus!

//! The administrative endpoint's rule: who may publish posts.

use vstd::prelude::*;
use vstd::string::StringExecFns;
use crate::auth::User;

verus! {

/// The administrative endpoints of the service.
pub struct AdminApi {}

impl AdminApi {
    /// Whether the caller may create a post: administrators alone.
    pub fn can_create_post(user: &User) -> (r: bool)
        ensures
            r == user.is_admin,
    {
        user.is_admin
    }

    /// The response body of a refused creation.
    pub fn invalid_permissions_text() -> (r: String)
        ensures
            r@ == "invalid permissions"@,
    {
        String::from_str("invalid permissions")
    }
}

} // verus!

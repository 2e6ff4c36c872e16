//! The identity providers bound to the caller.

use vstd::prelude::*;

verus! {

/// A binding of the caller to an identity provider.
pub struct UserIdp {
    pub id: i64,
    pub user_id: i64,
    pub idp_id: i64,
    pub auth_key: String,
}

} // verus!

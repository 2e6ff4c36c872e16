//! Identity providers.

pub mod idp_id;

use vstd::prelude::*;

use crate::util::string_map::StringMap;

verus! {

/// The parameters a provider's script receives for an authentication.
pub struct IdpAuthRequest {
    pub params: StringMap,
}

} // verus!

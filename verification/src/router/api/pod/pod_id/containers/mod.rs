//! The containers of a pod in the envelope-style API.

use vstd::prelude::*;

verus! {

/// The container listing answers with an empty success.
pub fn get_container() -> (status: u16)
    ensures
        status == 200,
{
    200
}

} // verus!

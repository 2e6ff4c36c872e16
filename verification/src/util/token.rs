//! Random tokens for codes and invitations.

use vstd::prelude::*;

verus! {

/// Whether `c` is in nanoid's URL-safe alphabet (`_`, `-`, digits, letters).
pub open spec fn url_safe(c: char) -> bool {
    c == '_' || c == '-' || ('0' <= c <= '9') || ('a' <= c <= 'z') || ('A' <= c <= 'Z')
}

/// A random identifier of `size` characters drawn by
/// `nanoid::format(nanoid::rngs::default, &nanoid::alphabet::SAFE, size)`
/// (what `nanoid!(size)` expands to). The contract claims what holds of every
/// outcome in the crate's source: exactly `size` characters, each from the
/// URL-safe alphabet. With `size` 0 the call never returns, which `requires`
/// leaves out.
#[verifier::external_body]
pub(crate) fn random_token(size: usize) -> (t: String)
    requires
        size >= 1,
    ensures
        t@.len() == size,
        forall|i: int| 0 <= i < t@.len() ==> url_safe(#[trigger] t@[i]),
{
    nanoid::format(nanoid::rngs::default, &nanoid::alphabet::SAFE, size)
}

} // verus!

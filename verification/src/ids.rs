//! Backing-store identifiers.

use vstd::prelude::*;

verus! {

/// Draws a fresh random backing-store identifier.
///
/// Relies on `nanoid::format` with the url-safe alphabet (64 characters, a
/// power of two) and size 21: it fills the result with exactly one character
/// per random byte, so the identifier always holds exactly 21 characters.
/// The value itself is random; nothing else is assumed of it.
#[verifier::external_body]
pub(crate) fn fresh_id() -> (r: String)
    ensures
        r@.len() == 21,
{
    nanoid::format(nanoid::rngs::default, &nanoid::alphabet::SAFE, 21)
}

} // verus!

//! Session and room identifiers.
//!
//! Both are opaque 128-bit tokens. A session identifier is drawn at random
//! when the connection is made; a room identifier is given by whoever routes
//! the connection.

use vstd::prelude::*;

verus! {

/// The bits of an identifier that hold the UUID version and variant.
pub const TAG_MASK: u128 = 0x0000_0000_0000_f000_c000_0000_0000_0000;

/// The value of those bits in a random (version 4, RFC 4122) UUID.
pub const RANDOM_TAG: u128 = 0x0000_0000_0000_4000_8000_0000_0000_0000;

/// Whether `id` has the shape of a random UUID: version 4, RFC 4122 variant.
pub open spec fn is_random_id(id: u128) -> bool {
    id & TAG_MASK == RANDOM_TAG
}

/// Draws a fresh random identifier.
///
/// Trusted: calls `uuid::Uuid::new_v4` and reads the result with
/// `Uuid::as_u128`. The value is random, so nothing is claimed of it but the
/// version and variant bits that `new_v4` always sets. `new_v4` panics if the
/// operating system cannot supply random bytes.
#[verifier::external_body]
pub(crate) fn fresh_id() -> (id: u128)
    ensures
        is_random_id(id),
{
    uuid::Uuid::new_v4().as_u128()
}

/// Executable test for [`is_random_id`].
pub fn has_random_shape(id: u128) -> (b: bool)
    ensures
        b == is_random_id(id),
{
    id & TAG_MASK == RANDOM_TAG
}

} // verus!

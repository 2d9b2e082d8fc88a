//! Connection identifiers: 128-bit tokens, minted at random when a
//! connection is accepted.

use vstd::prelude::*;

verus! {

/// Whether `id` carries the fixed bits of a random UUID: the version field,
/// bits 76 to 79, holds 4, and the variant field, bits 62 and 63, holds
/// binary 10.
pub open spec fn is_random_uuid(id: u128) -> bool {
    id & 0x0000_0000_0000_f000_c000_0000_0000_0000u128
        == 0x0000_0000_0000_4000_8000_0000_0000_0000u128
}

/// Calls `uuid::Uuid::new_v4` and hands out the identifier as the number
/// that `Uuid::as_u128` packs its sixteen bytes into, first byte highest.
/// The 122 other bits come from the operating system's random source:
/// only the version and variant fields, which `new_v4` sets, are claimed.
#[verifier::external_body]
pub(crate) fn mint() -> (id: u128)
    ensures
        is_random_uuid(id),
{
    uuid::Uuid::new_v4().as_u128()
}

} // verus!

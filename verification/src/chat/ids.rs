//! Fresh random ids, for sessions and for the page's message list.

use vstd::prelude::*;

verus! {

/// Whether `id` is laid out as a version-4 UUID of RFC 9562: version bits
/// `0100`, variant bits `10`.
pub open spec fn is_v4_uuid(id: u128) -> bool {
    &&& (id >> 76u128) & 0xfu128 == 4
    &&& (id >> 62u128) & 0x3u128 == 2
}

/// Calls `uuid::Uuid::new_v4` and takes the 128-bit value of the result.
/// Claimed: the value carries the version and variant bits of a version-4
/// UUID, as `new_v4` sets them; the other bits are random and unsaid.
#[verifier::external_body]
pub(crate) fn new_v4_id() -> (id: u128)
    ensures
        is_v4_uuid(id),
{
    uuid::Uuid::new_v4().as_u128()
}

} // verus!

//! The identity of a subscriber.

use vstd::prelude::*;

verus! {

/// The bits of a 128-bit identifier that tell its version and variant.
pub const VERSION_AND_VARIANT_MASK: u128 = 0x0000_0000_0000_f000_c000_0000_0000_0000;

/// The version and variant bits of a random (version 4) UUID.
pub const RANDOM_UUID_BITS: u128 = 0x0000_0000_0000_4000_8000_0000_0000_0000;

/// Whether `value` is laid out as a random (version 4) UUID.
pub open spec fn is_random_uuid(value: u128) -> bool {
    value & VERSION_AND_VARIANT_MASK == RANDOM_UUID_BITS
}

/// Calls `Uuid::new_v4` and then `Uuid::as_u128`, which packs the sixteen
/// bytes of the identifier, first byte highest. Every identifier that
/// `new_v4` makes has the version bits `0100` and the variant bits `10`; the
/// other bits are random.
#[verifier::external_body]
fn random_uuid() -> (value: u128)
    ensures
        is_random_uuid(value),
{
    uuid::Uuid::new_v4().as_u128()
}

/// The identity of a subscriber: the 128 bits of a UUID.
#[derive(Clone, Copy, Debug, PartialEq, Eq, Hash, Structural)]
pub struct SubscriberId {
    pub value: u128,
}

impl SubscriberId {
    /// The identity with the given bits.
    pub fn new(value: u128) -> (id: SubscriberId)
        ensures
            id.value == value,
    {
        SubscriberId { value }
    }

    /// Draws a fresh random identity.
    pub fn generate() -> (id: SubscriberId)
        ensures
            is_random_uuid(id.value),
    {
        SubscriberId { value: random_uuid() }
    }

    /// The bits of the identity.
    pub fn as_u128(&self) -> (value: u128)
        ensures
            value == self.value,
    {
        self.value
    }
}

} // verus!

use vstd::prelude::*;

verus! {

/// Whether a 128-bit value carries the marks of a random (version 4,
/// RFC 4122 variant) UUID: version nibble 4 and variant bits `10`.
pub open spec fn is_random_uuid(v: u128) -> bool {
    &&& (v >> 76u128) & 0xfu128 == 4
    &&& (v >> 62u128) & 0x3u128 == 2
}

/// Relies on uuid::Uuid::new_v4, which masks random bits into the version 4
/// and variant marks, and on Uuid::as_u128, which reads the 16 bytes back
/// as the big-endian integer that new_v4 built them from.
#[verifier::external_body]
fn random_uuid_value() -> (r: u128)
    ensures
        is_random_uuid(r),
{
    uuid::Uuid::new_v4().as_u128()
}

/// The identifier of one run, under which its key is recorded.
#[derive(Clone, Copy, Debug, PartialEq, Eq, Structural)]
pub struct RunId {
    value: u128,
}

impl RunId {
    /// The identifier as a 128-bit integer.
    pub closed spec fn spec_value(&self) -> u128 {
        self.value
    }

    /// A fresh random identifier.
    pub fn fresh() -> (r: RunId)
        ensures
            is_random_uuid(r.spec_value()),
    {
        RunId { value: random_uuid_value() }
    }

    /// The identifier as a 128-bit integer.
    pub fn value(&self) -> (r: u128)
        ensures
            r == self.spec_value(),
    {
        self.value
    }
}

} // verus!

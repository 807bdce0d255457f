//! Random numbers.

use vstd::prelude::*;

verus! {

/// Draws with `rand::random_range` a number that is at least `from` and below
/// `to`.  Nothing else is claimed of the number.  The outside function panics
/// on an empty range, which is left out.
#[verifier::external_body]
pub(crate) fn draw(from: u32, to: u32) -> (r: u32)
    requires
        from < to,
    ensures
        from <= r < to,
{
    rand::random_range(from..to)
}

/// Draws any 64-bit number with `rand::random`.  Every number can come.
#[verifier::external_body]
pub(crate) fn draw_salt() -> (r: i64) {
    rand::random()
}

/// Draws any sixteen bytes with `rand::random`.  All of them can come.
#[verifier::external_body]
pub(crate) fn draw_secret() -> (r: [u8; 16]) {
    rand::random()
}

/// Whether the 128 bits of a UUID, most significant first, have the layout of
/// a random UUID: version 4, and the variant whose two top bits are `10`.
pub open spec fn is_random_uuid(id: u128) -> bool {
    (id / 0x1000_0000_0000_0000_0000) % 16 == 4 && (id / 0x4000_0000_0000_0000) % 4 == 2
}

/// Makes a fresh UUID with `uuid::Uuid::new_v4`, which sets the version and
/// variant bits and takes the other bits from the system's random source.
#[verifier::external_body]
pub(crate) fn draw_uuid() -> (r: u128)
    ensures
        is_random_uuid(r),
{
    uuid::Uuid::new_v4().as_u128()
}

} // verus!

//! Values that come from the machine rather than from the caller: the wall
//! clock and random task identifiers.
//!
//! Both functions here are trusted: Verus believes their contracts and does
//! not read their bodies.

use vstd::prelude::*;

verus! {

/// Bits of a 128-bit identifier that carry the UUID version and variant.
pub const UUID_FORM_MASK: u128 = 0x0000_0000_0000_f000_c000_0000_0000_0000u128;

/// Value of those bits in a random (version 4, RFC variant) UUID.
pub const UUID_RANDOM_FORM: u128 = 0x0000_0000_0000_4000_8000_0000_0000_0000u128;

/// Whether `id` has the version and variant bits of a random UUID.
pub open spec fn is_random_uuid(id: u128) -> bool {
    id & UUID_FORM_MASK == UUID_RANDOM_FORM
}

/// Reads the wall clock through `chrono::Utc::now` and converts the instant
/// with `DateTime::timestamp_millis` to whole milliseconds since the Unix
/// epoch.
///
/// Nothing is claimed of the value: the clock may stand anywhere and may step
/// backwards between two calls. `Utc::now` itself panics where the system
/// clock is set before the epoch.
#[verifier::external_body]
pub(crate) fn current_time_millis() -> (now: i64) {
    chrono::Utc::now().timestamp_millis()
}

/// Draws a task identifier with `uuid::Uuid::new_v4` and returns it as the
/// 128-bit integer that `Uuid::as_u128` gives.
///
/// The value is random; the contract claims only what `new_v4` fixes in every
/// identifier it makes, the four version bits (`0100`) and the two variant
/// bits (`10`).
#[verifier::external_body]
pub(crate) fn fresh_task_id() -> (id: u128)
    ensures
        is_random_uuid(id),
{
    uuid::Uuid::new_v4().as_u128()
}

} // verus!

//! 128-bit Bluetooth UUIDs, with the 16-bit and 32-bit short forms that
//! expand into the Bluetooth base UUID.

use vstd::prelude::*;

verus! {

/// The Bluetooth base UUID, `00000000-0000-1000-8000-00805F9B34FB`.
/// A short-form identifier occupies bits 96..128 of the expanded value.
pub const BASE_UUID: u128 = 0x00000000_0000_1000_8000_00805F9B34FB;

/// 2^96: the weight of the short-form field inside an expanded UUID.
pub const SHORT_FORM_WEIGHT: u128 = 0x1000000000000000000000000;

/// A full 128-bit attribute identifier.
#[derive(Clone, Copy, PartialEq, Eq, Structural, Debug, Hash)]
pub struct Uuid {
    pub value: u128,
}

impl Uuid {
    /// Wraps a full 128-bit value.
    pub fn new(value: u128) -> (r: Uuid)
        ensures
            r.value == value,
    {
        Uuid { value }
    }

    /// Expands a 16-bit short form into the base UUID.
    pub fn from_short_u16(short: u16) -> (r: Uuid)
        ensures
            r.value == BASE_UUID + short * SHORT_FORM_WEIGHT,
    {
        Uuid { value: BASE_UUID + (short as u128) * SHORT_FORM_WEIGHT }
    }

    /// Expands a 32-bit short form into the base UUID.
    pub fn from_short_u32(short: u32) -> (r: Uuid)
        ensures
            r.value == BASE_UUID + short * SHORT_FORM_WEIGHT,
    {
        Uuid { value: BASE_UUID + (short as u128) * SHORT_FORM_WEIGHT }
    }
}

} // verus!

//! Byte-order correction for partition GUIDs found in device paths.
//!
//! Device-path GUID fields store their first three sub-fields (32, 16 and
//! 16 bits wide) little-endian, while OS-level UUID rendering is big-endian
//! throughout; the trailing 64-bit field keeps its byte order.  The fixup
//! reverses the bytes of only the first three sub-fields, producing a value
//! directly comparable to OS-reported partition UUIDs.

use vstd::prelude::*;

verus! {

/// The fixup as a function on the 128-bit value: the four bytes of the
/// first field reversed, the two bytes of each of the next two fields
/// swapped, the low 64 bits untouched.
pub open spec fn spec_fixup_uuid(x: u128) -> u128 {
    (((x >> 96) & 0xff) << 120) | (((x >> 104) & 0xff) << 112)
        | (((x >> 112) & 0xff) << 104) | (((x >> 120) & 0xff) << 96)
        | (((x >> 80) & 0xff) << 88) | (((x >> 88) & 0xff) << 80)
        | (((x >> 64) & 0xff) << 72) | (((x >> 72) & 0xff) << 64)
        | (x & 0xffff_ffff_ffff_ffff)
}

/// Reverse the byte order of the three mixed-endian GUID sub-fields.
pub fn fixup_uuid(data: u128) -> (r: u128)
    ensures
        r == spec_fixup_uuid(data),
{
    (((data >> 96) & 0xff) << 120) | (((data >> 104) & 0xff) << 112)
        | (((data >> 112) & 0xff) << 104) | (((data >> 120) & 0xff) << 96)
        | (((data >> 80) & 0xff) << 88) | (((data >> 88) & 0xff) << 80)
        | (((data >> 64) & 0xff) << 72) | (((data >> 72) & 0xff) << 64)
        | (data & 0xffff_ffff_ffff_ffff)
}

/// The fixup is an involution: applying it twice returns the original value.
pub proof fn lemma_fixup_uuid_involution(x: u128)
    ensures
        spec_fixup_uuid(spec_fixup_uuid(x)) == x,
{
    assert(spec_fixup_uuid(spec_fixup_uuid(x)) == x) by (bit_vector);
}

} // verus!

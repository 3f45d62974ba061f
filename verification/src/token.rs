//! The opaque 64-bit tokens that name handles across the foreign
//! boundary.
//!
//! A caller outside the process holds a handle as one integer: the slot
//! index plus one in the high half, the generation in the low half.
//! Zero is the null token, and no encoded handle ever collides with it.
//! Decoding inverts encoding exactly, so the token a caller hands back
//! names the same slot and generation it was given — the generation
//! check of the handle table then applies unchanged across the
//! boundary.

use vstd::prelude::*;

use crate::handles::Handle;

verus! {

/// The handle a token names: none for the null token or for a token
/// whose high half is empty, which no encoding produces.
pub open spec fn spec_decode(t: u64) -> Option<Handle> {
    if t < 0x1_0000_0000 {
        None
    } else {
        Some(Handle { index: ((t >> 32) - 1) as usize, generation: t & 0xFFFF_FFFF })
    }
}

/// Packs a handle into its nonzero boundary token.  The handle must fit
/// the packed form: fewer than two-to-the-thirty-two slots, and a
/// generation below two-to-the-thirty-two.
pub fn encode_handle(h: Handle) -> (t: u64)
    requires
        h.index < 0xFFFF_FFFFusize,
        h.generation < 0x1_0000_0000u64,
    ensures
        t != 0,
        spec_decode(t) == Some(h),
{
    let a: u64 = h.index as u64;
    let g: u64 = h.generation;
    let b: u64 = a + 1;
    let t: u64 = (b << 32) | g;
    proof {
        assert(t >= 0x1_0000_0000 && (t >> 32) == b && (t & 0xFFFF_FFFF) == g) by (bit_vector)
            requires
                1 <= b <= 0xFFFF_FFFFu64,
                g < 0x1_0000_0000u64,
                t == (b << 32) | g,
        ;
    }
    t
}

/// Unpacks a boundary token; the null token, and any token no encoding
/// produces, decodes to no handle.
pub fn decode_token(t: u64) -> (r: Option<Handle>)
    ensures
        r == spec_decode(t),
{
    if t < 0x1_0000_0000 {
        None
    } else {
        let hi: u64 = t >> 32;
        proof {
            assert(1 <= hi && hi <= 0xFFFF_FFFF) by (bit_vector)
                requires
                    t >= 0x1_0000_0000u64,
                    hi == t >> 32,
            ;
        }
        Some(Handle { index: (hi - 1) as usize, generation: t & 0xFFFF_FFFF })
    }
}

} // verus!

//! Per-track mute sets held as a 64-bit mask: bit `i` set means track `i` is
//! muted. Shared by the playback and monitor mixers.

use vstd::prelude::*;

verus! {

/// The most tracks a mask holds a bit for.
pub const MASK_TRACKS: usize = 64;

/// Bit `i` of `mask` is set.
pub open spec fn mask_bit(mask: u64, i: u64) -> bool {
    (mask >> i) & 1u64 == 1u64
}

/// Track `track` is muted under `mask`: in range and its bit set.
pub open spec fn mask_mutes(mask: u64, track: int) -> bool {
    0 <= track < 64 && mask_bit(mask, track as u64)
}

proof fn lemma_bit_test(mask: u64, t: u64)
    requires
        t < 64,
    ensures
        (mask & (1u64 << t) != 0u64) == mask_bit(mask, t),
{
    assert((mask & (1u64 << t) != 0u64) == ((mask >> t) & 1u64 == 1u64)) by (bit_vector)
        requires
            t < 64,
    ;
}

proof fn lemma_bit_set(mask: u64, t: u64, i: u64)
    requires
        t < 64,
        i < 64,
    ensures
        mask_bit(mask | (1u64 << t), i) == (i == t || mask_bit(mask, i)),
{
    assert((((mask | (1u64 << t)) >> i) & 1u64 == 1u64) == (i == t || ((mask >> i) & 1u64
        == 1u64))) by (bit_vector)
        requires
            t < 64,
            i < 64,
    ;
}

proof fn lemma_bit_clear(mask: u64, t: u64, i: u64)
    requires
        t < 64,
        i < 64,
    ensures
        mask_bit(mask & !(1u64 << t), i) == (i != t && mask_bit(mask, i)),
{
    assert((((mask & !(1u64 << t)) >> i) & 1u64 == 1u64) == (i != t && ((mask >> i) & 1u64
        == 1u64))) by (bit_vector)
        requires
            t < 64,
            i < 64,
    ;
}

/// Is `track` muted under `mask`? Out-of-range tracks read unmuted.
pub fn mask_is_muted(mask: u64, track: usize) -> (b: bool)
    ensures
        b == mask_mutes(mask, track as int),
{
    if track >= MASK_TRACKS {
        return false;
    }
    let t = track as u64;
    proof {
        lemma_bit_test(mask, t);
    }
    mask & (1u64 << t) != 0
}

/// `mask` with `track` muted or unmuted; out-of-range tracks leave it as is.
pub fn mask_with(mask: u64, track: usize, muted: bool) -> (m: u64)
    ensures
        track >= 64 ==> m == mask,
        track < 64 ==> m == (if muted {
            mask | (1u64 << (track as u64))
        } else {
            mask & !(1u64 << (track as u64))
        }),
        forall|i: int|
            #![trigger mask_mutes(m, i)]
            mask_mutes(m, i) == (if i == track as int && track < 64 {
                muted
            } else {
                mask_mutes(mask, i)
            }),
{
    if track >= MASK_TRACKS {
        return mask;
    }
    let t = track as u64;
    let bit = 1u64 << t;
    let m = if muted {
        mask | bit
    } else {
        mask & !bit
    };
    assert forall|i: int|
        #![trigger mask_mutes(m, i)]
        mask_mutes(m, i) == (if i == track as int && track < 64 {
            muted
        } else {
            mask_mutes(mask, i)
        }) by {
        if 0 <= i < 64 {
            if muted {
                lemma_bit_set(mask, t, i as u64);
            } else {
                lemma_bit_clear(mask, t, i as u64);
            }
        }
    }
    m
}

} // verus!

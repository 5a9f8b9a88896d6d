//! Waveform overview sizing: how many audio samples each peak summarises, so
//! a take's overview never exceeds `TARGET_MAX_PEAKS` entries however long it
//! is, while short clips still get buckets of at least `MIN_SAMPLES_PER_PEAK`.

use vstd::prelude::*;

verus! {

/// Upper bound on the number of peaks returned for any take.
pub const TARGET_MAX_PEAKS: usize = 20_000;

/// Floor on the bucket size, so short clips still get a smooth curve.
pub const MIN_SAMPLES_PER_PEAK: usize = 256;

/// `a / b` rounded up.
pub open spec fn ceil_div(a: int, b: int) -> int {
    (a + b - 1) / b
}

/// The bucket size for `len` samples: `len / TARGET_MAX_PEAKS` rounded up, but
/// never below `MIN_SAMPLES_PER_PEAK` (which is also the size for no samples).
pub open spec fn bucket_size(len: int) -> int {
    if len == 0 {
        256
    } else if ceil_div(len, 20_000) < 256 {
        256
    } else {
        ceil_div(len, 20_000)
    }
}

/// How many samples each peak summarises for a take of `len` samples.
pub fn samples_per_peak(len: usize) -> (spp: usize)
    ensures
        spp == bucket_size(len as int),
{
    if len == 0 {
        return MIN_SAMPLES_PER_PEAK;
    }
    let q = len / TARGET_MAX_PEAKS;
    let c = if len % TARGET_MAX_PEAKS == 0 { q } else { q + 1 };
    assert(c == ceil_div(len as int, 20_000)) by (nonlinear_arith)
        requires
            q == len / 20_000,
            c == (if len % 20_000 == 0 { q as int } else { q + 1 }),
            len > 0,
    ;
    if c < MIN_SAMPLES_PER_PEAK {
        MIN_SAMPLES_PER_PEAK
    } else {
        c
    }
}

/// The number of peaks (buckets) `len` samples give at bucket size `spp`.
pub fn peak_count(len: usize, spp: usize) -> (n: usize)
    requires
        spp > 0,
    ensures
        n == ceil_div(len as int, spp as int),
{
    let q = len / spp;
    assert(len % spp != 0 ==> q < len) by (nonlinear_arith)
        requires
            spp > 0,
            q == len / spp,
    ;
    let n = if len % spp == 0 { q } else { q + 1 };
    assert(n == ceil_div(len as int, spp as int)) by (nonlinear_arith)
        requires
            spp > 0,
            q == len / spp,
            n == (if len % spp == 0 { q as int } else { q + 1 }),
    ;
    n
}

/// However long the take, its overview has at most `TARGET_MAX_PEAKS` peaks,
/// each summarising at least `MIN_SAMPLES_PER_PEAK` samples.
pub proof fn lemma_overview_is_bounded(len: int)
    requires
        len >= 0,
    ensures
        bucket_size(len) >= 256,
        ceil_div(len, bucket_size(len)) <= 20_000,
{
    let b = bucket_size(len);
    let c = ceil_div(len, 20_000);
    assert(c * 20_000 >= len) by (nonlinear_arith)
        requires
            c == (len + 20_000 - 1) / 20_000,
            len >= 0,
    ;
    assert(b >= c && b >= 256);
    assert(ceil_div(len, b) <= 20_000) by (nonlinear_arith)
        requires
            b >= c,
            c * 20_000 >= len,
            b >= 256,
            len >= 0,
    {
        assert(b * 20_000 >= len);
        assert((len + b - 1) / b <= 20_000);
    }
}

} // verus!

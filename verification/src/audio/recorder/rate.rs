//! Sample-rate selection for the capture device.
//!
//! The project records at a fixed rate, but the input interface may not open at
//! it. The rate the device is opened at is decided here: the requested rate when
//! some supported range covers it; otherwise the reachable rate nearest to it
//! (the lower one on a tie); and the device's default rate when it advertises
//! no range at all.

use vstd::prelude::*;

verus! {

/// An inclusive sample-rate range a device advertises (Hz).
#[derive(Debug, Clone, Copy, PartialEq, Eq, Structural)]
pub struct RateRange {
    pub min: u32,
    pub max: u32,
}

/// A range is well formed when its bounds are in order.
pub open spec fn range_wf(r: RateRange) -> bool {
    r.min <= r.max
}

/// Every range of `ranges` is well formed.
pub open spec fn ranges_wf(ranges: Seq<RateRange>) -> bool {
    forall|i: int| 0 <= i < ranges.len() ==> range_wf(#[trigger] ranges[i])
}

/// `r` covers `rate`.
pub open spec fn covers(r: RateRange, rate: u32) -> bool {
    r.min <= rate && rate <= r.max
}

/// The reachable rate of `r` closest to `rate`: `rate` clamped to its bounds.
pub open spec fn clamp_to(r: RateRange, rate: u32) -> u32 {
    if rate < r.min {
        r.min
    } else if rate > r.max {
        r.max
    } else {
        rate
    }
}

/// Distance between two rates.
pub open spec fn dist(a: u32, b: u32) -> int {
    if a >= b {
        a - b
    } else {
        b - a
    }
}

/// `a` is at least as good a choice as `b` for `requested`: nearer, or as near
/// and not higher.
pub open spec fn no_worse(a: u32, b: u32, requested: u32) -> bool {
    dist(a, requested) < dist(b, requested) || (dist(a, requested) == dist(b, requested) && a
        <= b)
}

/// `c` is the best reachable rate among `ranges` for `requested`.
pub open spec fn is_nearest(ranges: Seq<RateRange>, requested: u32, c: u32) -> bool {
    &&& exists|i: int| 0 <= i < ranges.len() && c == clamp_to(#[trigger] ranges[i], requested)
    &&& forall|i: int|
        0 <= i < ranges.len() ==> no_worse(c, clamp_to(#[trigger] ranges[i], requested), requested)
}

/// Some range of `ranges` covers `requested`.
pub open spec fn some_covers(ranges: Seq<RateRange>, requested: u32) -> bool {
    exists|i: int| 0 <= i < ranges.len() && covers(#[trigger] ranges[i], requested)
}

/// `r` is the rate a device advertising `ranges` is opened at for a project at
/// `requested`, falling back to `default_rate`.
pub open spec fn capture_rate(
    ranges: Seq<RateRange>,
    requested: u32,
    default_rate: u32,
    r: u32,
) -> bool {
    if ranges.len() == 0 {
        r == default_rate
    } else if some_covers(ranges, requested) {
        r == requested
    } else {
        is_nearest(ranges, requested, r)
    }
}

impl RateRange {
    /// A range with its bounds put in order, even if a backend reports them
    /// swapped.
    pub fn new(min: u32, max: u32) -> (r: RateRange)
        ensures
            range_wf(r),
            min <= max ==> r == (RateRange { min, max }),
            min > max ==> r == (RateRange { min: max, max: min }),
    {
        if min <= max {
            RateRange { min, max }
        } else {
            RateRange { min: max, max: min }
        }
    }

    /// Does this range cover `rate`?
    fn contains(&self, rate: u32) -> (b: bool)
        ensures
            b == covers(*self, rate),
    {
        rate >= self.min && rate <= self.max
    }

    /// The reachable rate in this range closest to `rate`.
    fn clamp(&self, rate: u32) -> (c: u32)
        requires
            range_wf(*self),
        ensures
            c == clamp_to(*self, rate),
    {
        if rate < self.min {
            self.min
        } else if rate > self.max {
            self.max
        } else {
            rate
        }
    }
}

fn abs_diff(a: u32, b: u32) -> (d: u32)
    ensures
        d == dist(a, b),
{
    if a >= b {
        a - b
    } else {
        b - a
    }
}

/// Pick the sample rate the device should be opened at, given the requested
/// (project) rate, the device's supported input ranges, and the device's default
/// rate as the fallback. Ranges with swapped bounds are only refused where
/// the nearest reachable rate has to be found, since clamping into such a
/// range has no answer.
pub fn select_capture_rate(requested: u32, ranges: &[RateRange], default_rate: u32) -> (r: u32)
    requires
        ranges@.len() > 0 && !some_covers(ranges@, requested) ==> ranges_wf(ranges@),
    ensures
        capture_rate(ranges@, requested, default_rate, r),
{
    if ranges.len() == 0 {
        return default_rate;
    }
    let n = ranges.len();
    let mut k: usize = 0;
    while k < n
        invariant
            n == ranges@.len(),
            k <= n,
            forall|i: int| 0 <= i < k ==> !covers(#[trigger] ranges@[i], requested),
        decreases n - k,
    {
        if ranges[k].contains(requested) {
            assert(covers(ranges@[k as int], requested));
            return requested;
        }
        k = k + 1;
    }
    assert(!some_covers(ranges@, requested));
    let mut best = ranges[0].clamp(requested);
    let mut best_dist = abs_diff(best, requested);
    let mut i: usize = 1;
    while i < n
        invariant
            n == ranges@.len(),
            n > 0,
            1 <= i <= n,
            ranges_wf(ranges@),
            best_dist == dist(best, requested),
            exists|j: int| 0 <= j < i && best == clamp_to(#[trigger] ranges@[j], requested),
            forall|j: int|
                0 <= j < i ==> no_worse(best, clamp_to(#[trigger] ranges@[j], requested), requested),
        decreases n - i,
    {
        let cand = ranges[i].clamp(requested);
        let d = abs_diff(cand, requested);
        if d < best_dist || (d == best_dist && cand < best) {
            best = cand;
            best_dist = d;
        }
        i = i + 1;
    }
    best
}

/// The capture rate is determined by the set of advertised ranges: two devices
/// that advertise the same ranges, in any order or with repeats, are opened at
/// the same rate.
pub proof fn lemma_capture_rate_order_independent(
    a: Seq<RateRange>,
    b: Seq<RateRange>,
    requested: u32,
    default_rate: u32,
    ra: u32,
    rb: u32,
)
    requires
        a.to_set() == b.to_set(),
        capture_rate(a, requested, default_rate, ra),
        capture_rate(b, requested, default_rate, rb),
    ensures
        ra == rb,
{
    assert forall|x: RateRange| a.contains(x) <==> b.contains(x) by {
        assert(a.to_set().contains(x) == a.contains(x));
        assert(b.to_set().contains(x) == b.contains(x));
    }
    if a.len() == 0 {
        if b.len() > 0 {
            assert(b.contains(b[0]));
        }
    } else if b.len() == 0 {
        assert(a.contains(a[0]));
    } else {
        if some_covers(a, requested) {
            let i = choose|i: int| 0 <= i < a.len() && covers(#[trigger] a[i], requested);
            assert(a.contains(a[i]));
            let j = choose|j: int| 0 <= j < b.len() && b[j] == a[i];
            assert(covers(b[j], requested));
        } else if some_covers(b, requested) {
            let j = choose|j: int| 0 <= j < b.len() && covers(#[trigger] b[j], requested);
            assert(b.contains(b[j]));
            let i = choose|i: int| 0 <= i < a.len() && a[i] == b[j];
            assert(covers(a[i], requested));
        } else {
            let i = choose|i: int| 0 <= i < a.len() && ra == clamp_to(#[trigger] a[i], requested);
            assert(a.contains(a[i]));
            let j = choose|j: int| 0 <= j < b.len() && b[j] == a[i];
            assert(no_worse(rb, clamp_to(b[j], requested), requested));
            let j2 = choose|j: int| 0 <= j < b.len() && rb == clamp_to(#[trigger] b[j], requested);
            assert(b.contains(b[j2]));
            let i2 = choose|i: int| 0 <= i < a.len() && a[i] == b[j2];
            assert(no_worse(ra, clamp_to(a[i2], requested), requested));
        }
    }
}

/// A device that covers the requested rate is always opened at exactly that
/// rate: no conversion is needed whenever the hardware can run at the project
/// rate.
pub proof fn lemma_covered_rate_is_kept(
    ranges: Seq<RateRange>,
    requested: u32,
    default_rate: u32,
    r: u32,
)
    requires
        capture_rate(ranges, requested, default_rate, r),
        some_covers(ranges, requested),
    ensures
        r == requested,
{
}

/// Whatever the device advertises, the chosen rate is one it can run at (or
/// its own default rate when it advertises nothing).
pub proof fn lemma_capture_rate_is_reachable(
    ranges: Seq<RateRange>,
    requested: u32,
    default_rate: u32,
    r: u32,
)
    requires
        ranges_wf(ranges),
        capture_rate(ranges, requested, default_rate, r),
    ensures
        ranges.len() == 0 ==> r == default_rate,
        ranges.len() > 0 ==> exists|i: int| 0 <= i < ranges.len() && covers(#[trigger] ranges[i], r),
{
    if ranges.len() > 0 {
        if some_covers(ranges, requested) {
            let i = choose|i: int| 0 <= i < ranges.len() && covers(#[trigger] ranges[i], requested);
            assert(covers(ranges[i], r));
        } else {
            let i = choose|i: int| 0 <= i < ranges.len() && r == clamp_to(#[trigger] ranges[i], requested);
            assert(range_wf(ranges[i]));
            assert(covers(ranges[i], r));
        }
    }
}

} // verus!

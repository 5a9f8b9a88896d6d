//! Level metering: one peak-hold slot per channel, holding the largest peak
//! observed since the last read.
//!
//! Peaks are non-negative floats, whose bit patterns order as the numbers do,
//! so each slot keeps the IEEE-754 bit pattern of the peak and holds the
//! maximum bit pattern; the caller converts to and from `f32`. Patterns of
//! non-finite values, and every pattern with the sign bit set (negative values
//! and negative zero), are turned away on the way in, so the held pattern is
//! always that of the largest peak.

use vstd::prelude::*;

verus! {

/// One peak-hold slot per channel.
pub struct PeakMeters {
    slots: Vec<u32>,
}

impl View for PeakMeters {
    type V = Seq<u32>;

    closed spec fn view(&self) -> Seq<u32> {
        self.slots@
    }
}

/// `bits` is the pattern of a finite `f32` with its sign bit clear: anything
/// under the infinity pattern `0x7F80_0000`. Patterns from `0x7F80_0000` up
/// are infinities, NaNs or carry the sign bit (negative numbers and negative
/// zero, whose pattern would outrank every real peak).
pub open spec fn admissible_peak(bits: u32) -> bool {
    bits < 0x7F80_0000
}

impl PeakMeters {
    /// `channels` slots, all reset.
    pub fn new(channels: usize) -> (m: Self)
        ensures
            m@ == Seq::new(channels as nat, |i: int| 0u32),
    {
        let mut slots: Vec<u32> = Vec::new();
        let mut i: usize = 0;
        while i < channels
            invariant
                i <= channels,
                slots@ == Seq::new(i as nat, |k: int| 0u32),
            decreases channels - i,
        {
            slots.push(0);
            i = i + 1;
        }
        PeakMeters { slots }
    }

    /// Number of channels metered.
    pub fn channels(&self) -> (n: usize)
        ensures
            n == self@.len(),
    {
        self.slots.len()
    }

    /// Record a peak (as its bit pattern) for a channel, keeping the maximum
    /// since the last take. Out-of-range channels, and patterns of non-finite
    /// or negative peaks, are ignored.
    pub fn observe_bits(&mut self, channel: usize, bits: u32)
        ensures
            channel >= old(self)@.len() || !admissible_peak(bits) ==> final(self)@ == old(self)@,
            channel < old(self)@.len() && admissible_peak(bits) ==> final(self)@ == old(self)@.update(
                channel as int,
                if bits > old(self)@[channel as int] {
                    bits
                } else {
                    old(self)@[channel as int]
                },
            ),
    {
        if bits >= 0x7F80_0000 {
            return;
        }
        if channel < self.slots.len() {
            let cur = self.slots[channel];
            if bits > cur {
                self.slots.set(channel, bits);
            }
        }
    }

    /// Read and reset a channel's held peak (as its bit pattern); an
    /// out-of-range channel reads 0.
    pub fn take_bits(&mut self, channel: usize) -> (bits: u32)
        ensures
            channel >= old(self)@.len() ==> bits == 0 && final(self)@ == old(self)@,
            channel < old(self)@.len() ==> bits == old(self)@[channel as int] && final(self)@
                == old(self)@.update(channel as int, 0u32),
    {
        if channel < self.slots.len() {
            let b = self.slots[channel];
            self.slots.set(channel, 0);
            b
        } else {
            0
        }
    }
}

/// Peak hold: observing `a` then `b` on a channel holds the larger of the two,
/// whatever the order.
pub proof fn lemma_peak_hold_keeps_max(held: u32, a: u32, b: u32)
    ensures
        ({
            let after_a = if a > held { a } else { held };
            let after_ab = if b > after_a { b } else { after_a };
            let after_b = if b > held { b } else { held };
            let after_ba = if a > after_b { a } else { after_b };
            &&& after_ab == after_ba
            &&& after_ab >= a && after_ab >= b && after_ab >= held
            &&& (after_ab == a || after_ab == b || after_ab == held)
        }),
{
}

} // verus!

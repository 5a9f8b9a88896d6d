//! Audio settings: device selection, sample rate and buffer size.

use vstd::prelude::*;

use crate::error::AppError;
use crate::text::{decimal, push_decimal};

verus! {

/// Sample rates offered (Hz).
pub const SAMPLE_RATES: [u32; 4] = [44_100, 48_000, 88_200, 96_000];

/// Buffer sizes offered (frames). Smaller means lower latency and more risk.
pub const BUFFER_SIZES: [u32; 4] = [64, 128, 256, 512];

/// `rate` is one of the offered sample rates.
pub open spec fn offered_rate(rate: u32) -> bool {
    rate == 44_100 || rate == 48_000 || rate == 88_200 || rate == 96_000
}

/// `size` is one of the offered buffer sizes.
pub open spec fn offered_buffer(size: u32) -> bool {
    size == 64 || size == 128 || size == 256 || size == 512
}

/// Persisted audio configuration.
#[derive(Debug, Clone, PartialEq)]
pub struct AudioSettings {
    /// Selected input device name, or `None` to follow the system default.
    pub input_device: Option<String>,
    /// Selected output device name, or `None` to follow the system default.
    pub output_device: Option<String>,
    /// Project/engine sample rate in Hz.
    pub sample_rate: u32,
    /// I/O buffer size in frames.
    pub buffer_size: u32,
}

impl Default for AudioSettings {
    /// 48 kHz / 256 frames, following the system's default devices.
    fn default() -> (s: Self)
        ensures
            s.input_device is None,
            s.output_device is None,
            s.sample_rate == 48_000,
            s.buffer_size == 256,
    {
        AudioSettings { input_device: None, output_device: None, sample_rate: 48_000, buffer_size: 256 }
    }
}

/// The message for a sample rate that is not offered.
pub open spec fn bad_rate_message(rate: u32) -> Seq<char> {
    "unsupported sample rate: "@ + decimal(rate as nat)
}

/// The message for a buffer size that is not offered.
pub open spec fn bad_buffer_message(size: u32) -> Seq<char> {
    "unsupported buffer size: "@ + decimal(size as nat)
}

impl AudioSettings {
    /// Reject a sample rate or buffer size that is not offered (the rate is
    /// checked first).
    pub fn validate(&self) -> (r: Result<(), AppError>)
        ensures
            r is Ok <==> offered_rate(self.sample_rate) && offered_buffer(self.buffer_size),
            !offered_rate(self.sample_rate) ==> (r matches Err(AppError::Validation(m)) && m@
                == bad_rate_message(self.sample_rate)),
            offered_rate(self.sample_rate) && !offered_buffer(self.buffer_size) ==> (r matches Err(
                AppError::Validation(m),
            ) && m@ == bad_buffer_message(self.buffer_size)),
    {
        let mut k: usize = 0;
        let mut rate_ok = false;
        while k < 4
            invariant
                k <= 4,
                rate_ok == exists|j: int| 0 <= j < k && #[trigger] SAMPLE_RATES@[j] == self.sample_rate,
                SAMPLE_RATES@ == seq![44_100u32, 48_000u32, 88_200u32, 96_000u32],
            decreases 4 - k,
        {
            if SAMPLE_RATES[k] == self.sample_rate {
                rate_ok = true;
            }
            k = k + 1;
        }
        assert(rate_ok == offered_rate(self.sample_rate)) by {
            if offered_rate(self.sample_rate) {
                if self.sample_rate == 44_100 { assert(SAMPLE_RATES@[0] == self.sample_rate); }
                if self.sample_rate == 48_000 { assert(SAMPLE_RATES@[1] == self.sample_rate); }
                if self.sample_rate == 88_200 { assert(SAMPLE_RATES@[2] == self.sample_rate); }
                if self.sample_rate == 96_000 { assert(SAMPLE_RATES@[3] == self.sample_rate); }
            }
        }
        if !rate_ok {
            let mut m = "unsupported sample rate: ".to_string();
            push_decimal(&mut m, self.sample_rate as u64);
            return Err(AppError::Validation(m));
        }
        let mut k: usize = 0;
        let mut size_ok = false;
        while k < 4
            invariant
                k <= 4,
                size_ok == exists|j: int| 0 <= j < k && #[trigger] BUFFER_SIZES@[j] == self.buffer_size,
                BUFFER_SIZES@ == seq![64u32, 128u32, 256u32, 512u32],
            decreases 4 - k,
        {
            if BUFFER_SIZES[k] == self.buffer_size {
                size_ok = true;
            }
            k = k + 1;
        }
        assert(size_ok == offered_buffer(self.buffer_size)) by {
            if offered_buffer(self.buffer_size) {
                if self.buffer_size == 64 { assert(BUFFER_SIZES@[0] == self.buffer_size); }
                if self.buffer_size == 128 { assert(BUFFER_SIZES@[1] == self.buffer_size); }
                if self.buffer_size == 256 { assert(BUFFER_SIZES@[2] == self.buffer_size); }
                if self.buffer_size == 512 { assert(BUFFER_SIZES@[3] == self.buffer_size); }
            }
        }
        if !size_ok {
            let mut m = "unsupported buffer size: ".to_string();
            push_decimal(&mut m, self.buffer_size as u64);
            return Err(AppError::Validation(m));
        }
        Ok(())
    }
}

/// Latency zone for the settings screen: green below 10 ms, yellow up to
/// 20 ms, red beyond.
#[derive(Debug, Clone, Copy, PartialEq, Eq, Structural)]
pub enum LatencyZone {
    Green,
    Yellow,
    Red,
}

/// The default settings pass validation.
pub proof fn lemma_default_settings_are_valid()
    ensures
        offered_rate(48_000),
        offered_buffer(256),
{
}

} // verus!

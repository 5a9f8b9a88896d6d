//! What the multi-track WAV writer needs to know about each track.

use vstd::prelude::*;

verus! {

/// Broadcast-quality capture depth.
pub const BITS_PER_SAMPLE: u16 = 24;

/// What track a file belongs to and what to name it.
#[derive(Debug, Clone)]
pub struct TrackSpec {
    /// Stable track id (also the WAV filename stem).
    pub track_id: String,
}

impl TrackSpec {
    /// The track's WAV file name: its id followed by `.wav`.
    pub fn filename(&self) -> (f: String)
        ensures
            f@ == self.track_id@ + ".wav"@,
    {
        let mut f = self.track_id.clone();
        f.append(".wav");
        f
    }
}

} // verus!

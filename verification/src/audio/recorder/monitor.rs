//! The low-latency monitoring mixer's control surface: whether the monitor mix
//! is produced at all, and a per-track soft-mute mask (a muted track simply
//! contributes nothing to the headphone mix; capture is unaffected).

use vstd::prelude::*;

use crate::audio::mutemask::{mask_is_muted, mask_mutes, mask_with};

verus! {

/// The most input channels a mute bit is held for.
pub const MAX_MONITOR_TRACKS: usize = 64;

/// Monitor on/off plus the per-track mute mask.
#[derive(Debug)]
pub struct MonitorState {
    enabled: bool,
    mute_mask: u64,
}

/// What a [`MonitorState`] holds.
pub struct MonitorView {
    /// The monitor mix is being produced.
    pub enabled: bool,
    /// One bit per track: set = muted in the monitor mix.
    pub mute_mask: u64,
}

impl View for MonitorState {
    type V = MonitorView;

    closed spec fn view(&self) -> MonitorView {
        MonitorView { enabled: self.enabled, mute_mask: self.mute_mask }
    }
}

impl Default for MonitorState {
    fn default() -> (s: Self)
        ensures
            !s@.enabled,
            s@.mute_mask == 0,
    {
        MonitorState { enabled: false, mute_mask: 0 }
    }
}

impl MonitorState {
    /// Monitoring off, nothing muted.
    pub fn new() -> (s: Self)
        ensures
            !s@.enabled,
            s@.mute_mask == 0,
    {
        MonitorState { enabled: false, mute_mask: 0 }
    }

    /// Is the monitor mix being produced?
    pub fn enabled(&self) -> (b: bool)
        ensures
            b == self@.enabled,
    {
        self.enabled
    }

    /// Turn software monitoring on or off.
    pub fn set_enabled(&mut self, on: bool)
        ensures
            final(self)@.enabled == on,
            final(self)@.mute_mask == old(self)@.mute_mask,
    {
        self.enabled = on;
    }

    /// Is `track` muted in the monitor mix? Out-of-range tracks read unmuted.
    pub fn is_muted(&self, track: usize) -> (b: bool)
        ensures
            b == mask_mutes(self@.mute_mask, track as int),
    {
        mask_is_muted(self.mute_mask, track)
    }

    /// Mute or unmute a track in the monitor mix; out-of-range tracks are
    /// ignored.
    pub fn set_muted(&mut self, track: usize, muted: bool)
        ensures
            final(self)@.enabled == old(self)@.enabled,
            track >= MAX_MONITOR_TRACKS ==> final(self)@.mute_mask == old(self)@.mute_mask,
            track < MAX_MONITOR_TRACKS ==> final(self)@.mute_mask == (if muted {
                old(self)@.mute_mask | (1u64 << (track as u64))
            } else {
                old(self)@.mute_mask & !(1u64 << (track as u64))
            }),
            forall|i: int|
                #![trigger mask_mutes(final(self)@.mute_mask, i)]
                mask_mutes(final(self)@.mute_mask, i) == (if i == track as int && track
                    < MAX_MONITOR_TRACKS {
                    muted
                } else {
                    mask_mutes(old(self)@.mute_mask, i)
                }),
    {
        self.mute_mask = mask_with(self.mute_mask, track, muted);
    }

    /// The raw mute bitmask.
    pub fn mute_mask(&self) -> (m: u64)
        ensures
            m == self@.mute_mask,
    {
        self.mute_mask
    }
}

} // verus!

//! The timeline playback transport's control surface.
//!
//! The render and output threads read this every block: whether the transport
//! is rolling, the playhead position in timeline samples, and a per-track mute
//! mask the UI can flip during playback without rebuilding the timeline.

use vstd::prelude::*;

use super::mutemask::{mask_is_muted, mask_mutes, mask_with};
use crate::error::AppError;
use crate::text::{decimal, push_decimal};

verus! {

/// The most timeline tracks a mute bit is held for.
pub const MAX_PLAYBACK_TRACKS: usize = 64;

/// The player's transport and mute state.
#[derive(Debug)]
pub struct PlaybackState {
    playing: bool,
    position: u64,
    mute_mask: u64,
}

/// What a [`PlaybackState`] holds.
pub struct PlaybackView {
    /// The transport is rolling.
    pub playing: bool,
    /// Playhead position in timeline samples.
    pub position: u64,
    /// One bit per track: set = muted.
    pub mute_mask: u64,
}

impl View for PlaybackState {
    type V = PlaybackView;

    closed spec fn view(&self) -> PlaybackView {
        PlaybackView { playing: self.playing, position: self.position, mute_mask: self.mute_mask }
    }
}

impl Default for PlaybackState {
    fn default() -> (s: Self)
        ensures
            !s@.playing,
            s@.position == 0,
            s@.mute_mask == 0,
    {
        PlaybackState { playing: false, position: 0, mute_mask: 0 }
    }
}

impl PlaybackState {
    /// A stopped transport at the start of the timeline with nothing muted.
    pub fn new() -> (s: Self)
        ensures
            !s@.playing,
            s@.position == 0,
            s@.mute_mask == 0,
    {
        PlaybackState { playing: false, position: 0, mute_mask: 0 }
    }

    /// Is the transport rolling?
    pub fn playing(&self) -> (b: bool)
        ensures
            b == self@.playing,
    {
        self.playing
    }

    /// Start or stop rolling.
    pub fn set_playing(&mut self, on: bool)
        ensures
            final(self)@.playing == on,
            final(self)@.position == old(self)@.position,
            final(self)@.mute_mask == old(self)@.mute_mask,
    {
        self.playing = on;
    }

    /// Current playhead position in timeline samples.
    pub fn position(&self) -> (p: u64)
        ensures
            p == self@.position,
    {
        self.position
    }

    /// Move the playhead (a seek, or the render thread advancing it).
    pub fn set_position(&mut self, samples: u64)
        ensures
            final(self)@.position == samples,
            final(self)@.playing == old(self)@.playing,
            final(self)@.mute_mask == old(self)@.mute_mask,
    {
        self.position = samples;
    }

    /// Advance the playhead by `samples`, returning the new position.
    pub fn advance(&mut self, samples: u64) -> (p: u64)
        requires
            old(self)@.position + samples <= u64::MAX,
        ensures
            p == old(self)@.position + samples,
            final(self)@.position == p,
            final(self)@.playing == old(self)@.playing,
            final(self)@.mute_mask == old(self)@.mute_mask,
    {
        self.position = self.position + samples;
        self.position
    }

    /// Is `track` muted? Out-of-range tracks read unmuted.
    pub fn is_muted(&self, track: usize) -> (b: bool)
        ensures
            b == mask_mutes(self@.mute_mask, track as int),
    {
        mask_is_muted(self.mute_mask, track)
    }

    /// Mute or unmute a track in the playback mix; out-of-range tracks are
    /// ignored.
    pub fn set_muted(&mut self, track: usize, muted: bool)
        ensures
            final(self)@.playing == old(self)@.playing,
            final(self)@.position == old(self)@.position,
            track >= MAX_PLAYBACK_TRACKS ==> final(self)@.mute_mask == old(self)@.mute_mask,
            track < MAX_PLAYBACK_TRACKS ==> final(self)@.mute_mask == (if muted {
                old(self)@.mute_mask | (1u64 << (track as u64))
            } else {
                old(self)@.mute_mask & !(1u64 << (track as u64))
            }),
            forall|i: int|
                #![trigger mask_mutes(final(self)@.mute_mask, i)]
                mask_mutes(final(self)@.mute_mask, i) == (if i == track as int && track
                    < MAX_PLAYBACK_TRACKS {
                    muted
                } else {
                    mask_mutes(old(self)@.mute_mask, i)
                }),
    {
        self.mute_mask = mask_with(self.mute_mask, track, muted);
    }

    /// The raw mute bitmask.
    pub fn mute_mask(&self) -> (m: u64)
        ensures
            m == self@.mute_mask,
    {
        self.mute_mask
    }
}

/// Muting a track and then asking for it answers what was set, and leaves
/// every other track as it was.
pub proof fn lemma_playback_mute_reads_back(before: u64, after: u64, track: int, muted: bool, other: int)
    requires
        0 <= track < 64,
        other != track,
        forall|i: int|
            #![trigger mask_mutes(after, i)]
            mask_mutes(after, i) == (if i == track { muted } else { mask_mutes(before, i) }),
    ensures
        mask_mutes(after, track) == muted,
        mask_mutes(after, other) == mask_mutes(before, other),
{
    assert(mask_mutes(after, track) == muted);
    assert(mask_mutes(after, other) == mask_mutes(before, other));
}

} // verus!

verus! {

/// How many frames the render thread mixes per pass.
pub const RENDER_BLOCK: usize = 512;

/// The message for too many tracks.
pub open spec fn too_many_tracks_message(tracks: nat) -> Seq<char> {
    "tracks ("@ + decimal(tracks) + ") exceed the 64-track playback ceiling"@
}

/// Check a playback request before anything starts: a non-zero sample rate,
/// and no more tracks than mute bits.
pub fn check_playback_request(track_count: usize, sample_rate: u32) -> (r: Result<(), AppError>)
    ensures
        sample_rate == 0 ==> (r matches Err(AppError::Validation(m)) && m@
            == "sample_rate must be > 0"@),
        sample_rate > 0 && track_count > MAX_PLAYBACK_TRACKS ==> (r matches Err(
            AppError::Validation(m),
        ) && m@ == too_many_tracks_message(track_count as nat)),
        sample_rate > 0 && track_count <= MAX_PLAYBACK_TRACKS ==> r is Ok,
{
    if sample_rate == 0 {
        return Err(AppError::Validation("sample_rate must be > 0".to_string()));
    }
    if track_count > MAX_PLAYBACK_TRACKS {
        let mut m = "tracks (".to_string();
        push_decimal(&mut m, track_count as u64);
        m.append(") exceed the 64-track playback ceiling");
        return Err(AppError::Validation(m));
    }
    Ok(())
}

/// Seek the playhead to `samples`, clamped to the timeline `length`.
pub fn seek(state: &mut PlaybackState, samples: u64, length: u64)
    ensures
        final(state)@.position == (if samples <= length { samples } else { length }),
        final(state)@.playing == old(state)@.playing,
        final(state)@.mute_mask == old(state)@.mute_mask,
{
    let p = if samples <= length { samples } else { length };
    state.set_position(p);
}

/// The largest of `lens`, 0 for none: the playback length of tracks of these
/// lengths.
pub open spec fn longest(lens: Seq<u64>) -> u64
    decreases lens.len(),
{
    if lens.len() == 0 {
        0
    } else {
        let rest = longest(lens.drop_last());
        if lens.last() > rest {
            lens.last()
        } else {
            rest
        }
    }
}

/// The longest track timeline, in samples, given each track's length: once
/// the playhead passes it there is nothing left to hear.
pub fn timeline_len(track_lens: &[u64]) -> (n: u64)
    ensures
        n == longest(track_lens@),
        forall|i: int| 0 <= i < track_lens@.len() ==> #[trigger] track_lens@[i] <= n,
        track_lens@.len() > 0 ==> exists|i: int| 0 <= i < track_lens@.len() && #[trigger] track_lens@[i] == n,
{
    let mut n: u64 = 0;
    let mut i: usize = 0;
    while i < track_lens.len()
        invariant
            i <= track_lens@.len(),
            n == longest(track_lens@.take(i as int)),
            forall|k: int| 0 <= k < i ==> #[trigger] track_lens@[k] <= n,
            i > 0 ==> exists|k: int| 0 <= k < i && #[trigger] track_lens@[k] == n,
            i == 0 ==> n == 0,
        decreases track_lens@.len() - i,
    {
        assert(track_lens@.take(i as int + 1).drop_last() =~= track_lens@.take(i as int));
        if track_lens[i] > n {
            n = track_lens[i];
        }
        i = i + 1;
    }
    assert(track_lens@.take(track_lens@.len() as int) =~= track_lens@);
    n
}

/// One decision of the render thread for a timeline of `length` samples.
/// Paused, or at the end: nothing to render (reaching the end also stops the
/// transport, so the UI shows a clean stop). Otherwise: the block to mix next,
/// starting at the playhead and never past the end.
pub fn render_step(state: &mut PlaybackState, length: u64) -> (block: Option<(u64, usize)>)
    ensures
        final(state)@.position == old(state)@.position,
        final(state)@.mute_mask == old(state)@.mute_mask,
        old(state)@.position >= length ==> block is None && !final(state)@.playing,
        old(state)@.position < length && !old(state)@.playing ==> block is None
            && final(state)@.playing == old(state)@.playing,
        old(state)@.position < length && old(state)@.playing ==> final(state)@.playing
            && block == Some(
            (
                old(state)@.position,
                (if length - old(state)@.position < 512 {
                    (length - old(state)@.position) as usize
                } else {
                    512usize
                }),
            ),
        ),
{
    let pos = state.position();
    if pos >= length {
        state.set_playing(false);
        return None;
    }
    if !state.playing() {
        return None;
    }
    let remaining = length - pos;
    let frames: usize = if remaining < RENDER_BLOCK as u64 { remaining as usize } else { RENDER_BLOCK };
    Some((pos, frames))
}

/// The render thread never mixes past the end of the timeline: every block it
/// is handed is non-empty, at most `RENDER_BLOCK` long, and ends within it.
pub proof fn lemma_render_block_within_timeline(position: u64, length: u64, start: u64, frames: usize)
    requires
        position < length,
        start == position,
        frames == (if length - position < 512 { (length - position) as usize } else { 512usize }),
    ensures
        0 < frames <= 512,
        start + frames <= length,
{
}

} // verus!

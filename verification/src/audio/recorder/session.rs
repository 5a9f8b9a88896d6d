//! Recording-session configuration and the control commands the audio thread
//! applies once per block.

use vstd::prelude::*;

use super::command::RecorderCommand;
use super::monitor::MonitorState;
use super::writer::TrackSpec;
use crate::audio::mutemask::mask_mutes;
use crate::error::AppError;
use crate::text::{decimal, push_decimal};

verus! {

/// Configuration for one recording session.
#[derive(Debug, Clone)]
pub struct RecordConfig {
    /// Directory for this take's per-track WAVs.
    pub take_dir: String,
    /// One entry per recorded track; its length must equal `channels`.
    pub tracks: Vec<TrackSpec>,
    /// Number of interleaved input channels.
    pub channels: usize,
    pub sample_rate: u32,
}

/// The message given when the track list and the channel count disagree.
pub open spec fn track_mismatch_message(tracks: nat, channels: nat) -> Seq<char> {
    "tracks ("@ + decimal(tracks) + ") must match channels ("@ + decimal(channels) + ")"@
}

/// Check a session configuration before anything is opened: at least one
/// channel, and exactly one track per channel.
pub fn check_record_config(config: &RecordConfig) -> (r: Result<(), AppError>)
    ensures
        config.channels == 0 ==> (r matches Err(AppError::Validation(m)) && m@
            == "channels must be > 0"@),
        config.channels > 0 && config.tracks@.len() != config.channels ==> (r matches Err(
            AppError::Validation(m),
        ) && m@ == track_mismatch_message(config.tracks@.len(), config.channels as nat)),
        config.channels > 0 && config.tracks@.len() == config.channels ==> r is Ok,
{
    if config.channels == 0 {
        return Err(AppError::Validation("channels must be > 0".to_string()));
    }
    if config.tracks.len() != config.channels {
        let mut m = "tracks (".to_string();
        push_decimal(&mut m, config.tracks.len() as u64);
        m.append(") must match channels (");
        push_decimal(&mut m, config.channels as u64);
        m.append(")");
        return Err(AppError::Validation(m));
    }
    Ok(())
}

/// Apply one control command from the UI to the monitor state: monitoring
/// on/off, or a per-track mute. `Stop` leaves the monitor as it is (teardown is
/// driven by the session's shutdown flag).
pub fn apply_command(monitor: &mut MonitorState, cmd: RecorderCommand)
    ensures
        match cmd {
            RecorderCommand::SetMonitoring(on) => final(monitor)@.enabled == on
                && final(monitor)@.mute_mask == old(monitor)@.mute_mask,
            RecorderCommand::SetMute { track, muted } => final(monitor)@.enabled == old(
                monitor,
            )@.enabled && forall|i: int|
                #![trigger mask_mutes(final(monitor)@.mute_mask, i)]
                mask_mutes(final(monitor)@.mute_mask, i) == (if i == track as int && track < 64 {
                    muted
                } else {
                    mask_mutes(old(monitor)@.mute_mask, i)
                }),
            RecorderCommand::Stop => final(monitor)@ == old(monitor)@,
        },
{
    match cmd {
        RecorderCommand::SetMonitoring(on) => monitor.set_enabled(on),
        RecorderCommand::SetMute { track, muted } => monitor.set_muted(track, muted),
        RecorderCommand::Stop => {},
    }
}

} // verus!

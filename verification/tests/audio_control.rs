use sundaystudio::audio::devices::{summarise, ConfigRange, Direction, STANDARD_RATES};
use sundaystudio::audio::mutemask::{mask_is_muted, mask_with};
use sundaystudio::audio::peaks::{peak_count, samples_per_peak, MIN_SAMPLES_PER_PEAK, TARGET_MAX_PEAKS};
use sundaystudio::audio::playback::{
    check_playback_request, render_step, seek, PlaybackState, MAX_PLAYBACK_TRACKS,
};
use sundaystudio::audio::recorder::command::{command_channel, RecorderCommand};
use sundaystudio::audio::recorder::meters::PeakMeters;
use sundaystudio::audio::recorder::monitor::{MonitorState, MAX_MONITOR_TRACKS};
use sundaystudio::audio::recorder::session::{apply_command, check_record_config, RecordConfig};
use sundaystudio::audio::recorder::writer::TrackSpec;
use sundaystudio::audio::settings::{AudioSettings, LatencyZone, BUFFER_SIZES, SAMPLE_RATES};

// ── playback transport ──────────────────────────────────────────────────────

#[test]
fn state_defaults_stopped_at_zero_unmuted() {
    let s = PlaybackState::new();
    assert!(!s.playing());
    assert_eq!(s.position(), 0);
    assert_eq!(s.mute_mask(), 0);
    assert!(!s.is_muted(0));
}

#[test]
fn transport_flags_toggle_and_position_moves() {
    let mut s = PlaybackState::new();
    s.set_playing(true);
    assert!(s.playing());

    s.set_position(100);
    assert_eq!(s.position(), 100);
    assert_eq!(s.advance(50), 150);

    s.set_muted(3, true);
    assert!(s.is_muted(3));
    assert!(!s.is_muted(2));
    assert_eq!(s.mute_mask(), 0b1000);
    s.set_muted(3, false);
    assert_eq!(s.mute_mask(), 0);
}

#[test]
fn playback_out_of_range_track_is_ignored() {
    let mut s = PlaybackState::new();
    s.set_muted(MAX_PLAYBACK_TRACKS, true); // no-op, must not panic
    assert_eq!(s.mute_mask(), 0);
    assert!(!s.is_muted(MAX_PLAYBACK_TRACKS + 5));
}

#[test]
fn start_playback_rejects_zero_rate() {
    assert!(check_playback_request(0, 0).is_err());
}

#[test]
fn start_playback_rejects_too_many_tracks() {
    let err = check_playback_request(MAX_PLAYBACK_TRACKS + 1, 48_000).unwrap_err();
    assert_eq!(err.code(), "validation");
    assert!(check_playback_request(MAX_PLAYBACK_TRACKS, 48_000).is_ok());
}

#[test]
fn seek_clamps_to_the_timeline_length() {
    let mut s = PlaybackState::new();
    seek(&mut s, 10_000, 480); // way past the end
    assert_eq!(s.position(), 480);
    seek(&mut s, 240, 480);
    assert_eq!(s.position(), 240);
}

#[test]
fn render_step_stops_at_the_end_and_never_overruns() {
    let mut s = PlaybackState::new();
    // Paused: nothing to render, position held.
    assert_eq!(render_step(&mut s, 2000), None);
    s.set_playing(true);
    assert_eq!(render_step(&mut s, 2000), Some((0, 512)));
    s.set_position(1800);
    // Only the 200 remaining samples.
    assert_eq!(render_step(&mut s, 2000), Some((1800, 200)));
    s.set_position(2000);
    // At the end: auto-pause.
    assert_eq!(render_step(&mut s, 2000), None);
    assert!(!s.playing());
}

#[test]
fn muting_many_tracks_sets_exactly_their_bits() {
    let mut m = 0u64;
    for t in [0usize, 5, 63] {
        m = mask_with(m, t, true);
    }
    assert_eq!(m, 1 | (1 << 5) | (1 << 63));
    assert!(mask_is_muted(m, 63));
    assert!(!mask_is_muted(m, 64));
    m = mask_with(m, 5, false);
    assert_eq!(m, 1 | (1 << 63));
}

// ── monitor ─────────────────────────────────────────────────────────────────

#[test]
fn monitor_state_defaults_off_and_unmuted() {
    let s = MonitorState::new();
    assert!(!s.enabled());
    assert_eq!(s.mute_mask(), 0);
    assert!(!s.is_muted(0));
}

#[test]
fn toggling_enabled_and_mute_is_visible() {
    let mut s = MonitorState::new();
    s.set_enabled(true);
    assert!(s.enabled());

    s.set_muted(2, true);
    assert!(s.is_muted(2));
    assert!(!s.is_muted(1));
    assert_eq!(s.mute_mask(), 0b100);

    s.set_muted(2, false);
    assert!(!s.is_muted(2));
    assert_eq!(s.mute_mask(), 0);
}

#[test]
fn monitor_out_of_range_track_is_ignored() {
    let mut s = MonitorState::new();
    s.set_muted(MAX_MONITOR_TRACKS, true); // no-op, must not panic
    assert_eq!(s.mute_mask(), 0);
    assert!(!s.is_muted(MAX_MONITOR_TRACKS + 10));
}

#[test]
fn commands_apply_to_the_monitor() {
    let mut s = MonitorState::new();
    apply_command(&mut s, RecorderCommand::SetMonitoring(true));
    assert!(s.enabled());
    apply_command(&mut s, RecorderCommand::SetMute { track: 4, muted: true });
    assert!(s.is_muted(4));
    assert_eq!(s.mute_mask(), 0b1_0000);
    apply_command(&mut s, RecorderCommand::Stop);
    assert!(s.enabled());
    assert_eq!(s.mute_mask(), 0b1_0000);
    apply_command(&mut s, RecorderCommand::SetMonitoring(false));
    assert!(!s.enabled());
}

// ── command channel ─────────────────────────────────────────────────────────

#[test]
fn commands_arrive_in_order() {
    let (mut tx, mut rx) = command_channel(8);
    assert!(tx.send(RecorderCommand::SetMonitoring(true)));
    assert!(tx.send(RecorderCommand::SetMute {
        track: 2,
        muted: true
    }));
    assert!(tx.send(RecorderCommand::Stop));

    assert_eq!(rx.try_recv(), Some(RecorderCommand::SetMonitoring(true)));
    assert_eq!(
        rx.try_recv(),
        Some(RecorderCommand::SetMute {
            track: 2,
            muted: true
        })
    );
    assert_eq!(rx.try_recv(), Some(RecorderCommand::Stop));
    assert_eq!(rx.try_recv(), None);
}

#[test]
fn full_queue_reports_failure_without_blocking() {
    let (mut tx, mut rx) = command_channel(2);
    assert!(tx.send(RecorderCommand::Stop));
    assert!(tx.send(RecorderCommand::Stop));
    assert!(!tx.send(RecorderCommand::Stop)); // full
    assert_eq!(rx.try_recv(), Some(RecorderCommand::Stop));
    assert!(tx.send(RecorderCommand::Stop)); // room again
}

#[test]
fn zero_capacity_channel_still_holds_one_command() {
    let (mut tx, mut rx) = command_channel(0);
    assert!(tx.send(RecorderCommand::Stop));
    assert!(!tx.send(RecorderCommand::Stop));
    assert_eq!(rx.try_recv(), Some(RecorderCommand::Stop));
}

// ── meters ──────────────────────────────────────────────────────────────────

#[test]
fn meters_hold_max_then_reset_on_take() {
    let mut m = PeakMeters::new(2);
    m.observe_bits(0, 0.3f32.to_bits());
    m.observe_bits(0, 0.8f32.to_bits());
    m.observe_bits(0, 0.5f32.to_bits()); // max so far is 0.8
    m.observe_bits(1, 0.25f32.to_bits());

    assert_eq!(f32::from_bits(m.take_bits(0)), 0.8);
    assert_eq!(f32::from_bits(m.take_bits(1)), 0.25);
    // After take, slots reset to 0.
    assert_eq!(m.take_bits(0), 0);
}

#[test]
fn meters_ignore_bad_input_and_oob_channels() {
    let mut m = PeakMeters::new(1);
    m.observe_bits(0, f32::NAN.to_bits());
    m.observe_bits(0, (-1.0f32).to_bits());
    m.observe_bits(5, 0.9f32.to_bits()); // out of range
    assert_eq!(m.take_bits(0), 0);
    assert_eq!(m.take_bits(5), 0);
    assert_eq!(m.channels(), 1);
}

#[test]
fn meters_turn_away_infinities_but_hold_zero_and_finite_peaks() {
    let mut m = PeakMeters::new(1);
    m.observe_bits(0, f32::INFINITY.to_bits());
    assert_eq!(m.take_bits(0), 0);
    m.observe_bits(0, 0.25f32.to_bits());
    m.observe_bits(0, f32::NEG_INFINITY.to_bits());
    assert_eq!(f32::from_bits(m.take_bits(0)), 0.25);
}

#[test]
fn meters_ignore_negative_zero() {
    let mut m = PeakMeters::new(1);
    m.observe_bits(0, (-0.0f32).to_bits());
    assert_eq!(m.take_bits(0), 0);
    m.observe_bits(0, (-0.0f32).to_bits());
    m.observe_bits(0, 0.5f32.to_bits());
    assert_eq!(f32::from_bits(m.take_bits(0)), 0.5);
}

// ── session config ──────────────────────────────────────────────────────────

fn track_specs(n: usize) -> Vec<TrackSpec> {
    (0..n)
        .map(|i| TrackSpec {
            track_id: format!("track{i}"),
        })
        .collect()
}

#[test]
fn rejects_mismatched_track_and_channel_counts() {
    let config = RecordConfig {
        take_dir: "/tmp/take".to_string(),
        tracks: track_specs(3),
        channels: 2,
        sample_rate: 48_000,
    };
    let err = check_record_config(&config).unwrap_err();
    assert_eq!(err.code(), "validation");
    match err {
        sundaystudio::error::AppError::Validation(m) => {
            assert_eq!(m, "tracks (3) must match channels (2)")
        }
        other => panic!("unexpected {other:?}"),
    }
}

#[test]
fn session_config_needs_channels_and_matching_tracks() {
    let mut config = RecordConfig {
        take_dir: "/tmp/take".to_string(),
        tracks: Vec::new(),
        channels: 0,
        sample_rate: 48_000,
    };
    assert!(check_record_config(&config).is_err());
    config.channels = 2;
    config.tracks = track_specs(2);
    assert!(check_record_config(&config).is_ok());
}

#[test]
fn track_file_is_named_after_its_id() {
    let t = TrackSpec {
        track_id: "host".to_string(),
    };
    assert_eq!(t.filename(), "host.wav");
}

// ── devices ─────────────────────────────────────────────────────────────────

#[test]
fn standard_rates_filter_is_within_range() {
    // Sanity: nothing outside the advertised range leaks through.
    for r in STANDARD_RATES {
        assert!((44_100..=96_000).contains(&r));
    }
}

#[test]
fn summarise_reports_widest_channels_and_covered_rates() {
    let configs = [
        ConfigRange {
            channels: 2,
            min_sample_rate: 44_100,
            max_sample_rate: 48_000,
        },
        ConfigRange {
            channels: 8,
            min_sample_rate: 48_000,
            max_sample_rate: 88_200,
        },
    ];
    let d = summarise(Some("Scarlett".to_string()), Direction::Input, true, &configs);
    assert_eq!(d.name, "Scarlett");
    assert_eq!(d.direction, "input");
    assert_eq!(d.channels, 8);
    assert_eq!(d.sample_rates, vec![44_100, 48_000, 88_200]);
    assert!(d.is_default);

    let none = summarise(None, Direction::Output, false, &[]);
    assert_eq!(none.name, "Unknown device");
    assert_eq!(none.direction, "output");
    assert_eq!(none.channels, 0);
    assert!(none.sample_rates.is_empty());
}

// ── peaks sizing ────────────────────────────────────────────────────────────

#[test]
fn short_clip_uses_minimum_bucket() {
    assert_eq!(samples_per_peak(0), MIN_SAMPLES_PER_PEAK);
    assert_eq!(samples_per_peak(1000), MIN_SAMPLES_PER_PEAK);
    // 1000 / 256 → 4 buckets (ceil).
    assert_eq!(peak_count(1000, MIN_SAMPLES_PER_PEAK), 4);
}

#[test]
fn long_input_stays_under_target() {
    let spp = samples_per_peak(10_000_000);
    assert_eq!(spp, 500);
    assert!(peak_count(10_000_000, spp) <= TARGET_MAX_PEAKS);
    let spp = samples_per_peak(10_000_001);
    assert_eq!(spp, 501);
    assert!(peak_count(10_000_001, spp) <= TARGET_MAX_PEAKS);
}

// ── settings ────────────────────────────────────────────────────────────────

#[test]
fn defaults_are_valid_and_safe() {
    let s = AudioSettings::default();
    assert_eq!(s.sample_rate, 48_000);
    assert_eq!(s.buffer_size, 256);
    assert!(s.validate().is_ok());
}

#[test]
fn validate_rejects_bad_values() {
    let bad_rate = AudioSettings {
        sample_rate: 12_345,
        ..Default::default()
    };
    assert!(bad_rate.validate().is_err());

    let bad_buffer = AudioSettings {
        buffer_size: 1000,
        ..Default::default()
    };
    assert!(bad_buffer.validate().is_err());
}

#[test]
fn validate_names_the_offending_value() {
    let bad_rate = AudioSettings {
        sample_rate: 12_345,
        ..Default::default()
    };
    match bad_rate.validate().unwrap_err() {
        sundaystudio::error::AppError::Validation(m) => {
            assert_eq!(m, "unsupported sample rate: 12345")
        }
        other => panic!("unexpected {other:?}"),
    }
    for r in SAMPLE_RATES {
        for b in BUFFER_SIZES {
            let s = AudioSettings {
                sample_rate: r,
                buffer_size: b,
                ..Default::default()
            };
            assert!(s.validate().is_ok());
        }
    }
    assert_ne!(LatencyZone::Green, LatencyZone::Red);
}
